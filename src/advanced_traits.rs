//! Associated types, generic traits, default type parameters and
//! same-named methods from several traits.
use vstd::prelude::*;

use crate::text::{push_char, signed_decimal, signed_decimal_of};

verus! {

/// A source of items, one at a time.
pub trait MyIterator {
    type Item;

    fn next(&mut self) -> Option<Self::Item>;
}

/// A counter that always yields zero.
pub struct Counter {
    pub count: i32,
}

impl MyIterator for Counter {
    type Item = u32;

    fn next(&mut self) -> (r: Option<u32>)
        ensures
            r == Some(0u32),
    {
        Some(0)
    }
}

/// A source of items of a chosen type.
pub trait MyIterGen<T> {
    fn next(&mut self) -> Option<T>;
}

/// A counter that yields a fixed value of each type it supports.
pub struct Counter2 {
    pub count: i32,
}

impl MyIterGen<String> for Counter2 {
    fn next(&mut self) -> Option<String> {
        Some(String::from_str("test"))
    }
}

impl MyIterGen<i32> for Counter2 {
    fn next(&mut self) -> Option<i32> {
        Some(10)
    }
}

/// A point in the plane, of `i32` coordinates unless said otherwise.
#[derive(Debug, Clone, Copy, PartialEq, Eq, Structural)]
pub struct Point<T = i32> {
    pub x: T,
    pub y: T,
}

/// `(x, y)`.
pub open spec fn point_text(x: i32, y: i32) -> Seq<char> {
    seq!['('] + signed_decimal_of(x as int) + ", "@ + signed_decimal_of(y as int) + seq![')']
}

impl Point<i32> {
    /// The point written `(x, y)`.
    pub fn describe(&self) -> (s: String)
        ensures
            s@ == point_text(self.x, self.y),
    {
        let mut s = String::new();
        push_char(&mut s, '(');
        let x = signed_decimal(self.x as i64);
        s.append(x.as_str());
        s.append(", ");
        let y = signed_decimal(self.y as i64);
        s.append(y.as_str());
        push_char(&mut s, ')');
        assert(s@ =~= point_text(self.x, self.y));
        s
    }
}

/// `n` copies of `c`.
pub open spec fn repeated(c: char, n: nat) -> Seq<char> {
    Seq::new(n, |i: int| c)
}

fn repeat(s: &mut String, c: char, n: usize)
    ensures
        final(s)@ == old(s)@ + repeated(c, n as nat),
{
    let mut k: usize = 0;
    while k < n
        invariant
            k <= n,
            s@ == old(s)@ + repeated(c, k as nat),
        decreases n - k,
    {
        push_char(s, c);
        k += 1;
        assert(s@ =~= old(s)@ + repeated(c, k as nat));
    }
}

/// The five lines of a star frame around a text of `len` bytes: a row of
/// stars, a blank row, the text, a blank row, a row of stars.
pub open spec fn outline_of(text: Seq<char>, len: nat) -> Seq<Seq<char>> {
    let stars = repeated('*', len + 4);
    let blank = seq!['*'] + repeated(' ', len + 2) + seq!['*'];
    seq![stars, blank, "* "@ + text + " *"@, blank, stars]
}

/// Frames `text` with stars.
pub fn outline(text: &str) -> (lines: Vec<String>)
    requires
        text.len() + 4 <= usize::MAX,
    ensures
        lines@.map_values(|l: String| l@) == outline_of(text@, text.len() as nat),
{
    let len = text.len();
    let mut stars = String::new();
    repeat(&mut stars, '*', len + 4);
    let mut blank = String::new();
    push_char(&mut blank, '*');
    repeat(&mut blank, ' ', len + 2);
    push_char(&mut blank, '*');
    let mut middle = String::from_str("* ");
    middle.append(text);
    middle.append(" *");
    assert(stars@ =~= repeated('*', (text.len() + 4) as nat));
    assert(blank@ =~= seq!['*'] + repeated(' ', (text.len() + 2) as nat) + seq!['*']);
    let mut lines: Vec<String> = Vec::new();
    lines.push(stars.clone());
    lines.push(blank.clone());
    lines.push(middle);
    lines.push(blank);
    lines.push(stars);
    assert(lines@.map_values(|l: String| l@) =~= outline_of(text@, text.len() as nat));
    lines
}

pub trait Pilot {
    fn fly(&self) -> &'static str;
}

pub trait Wizard {
    fn fly(&self) -> &'static str;

    fn magic() -> &'static str;
}

pub struct Human;

impl Human {
    /// How a person flies on their own.
    pub fn fly(&self) -> (s: &'static str)
        ensures
            s@ == "사람이 날고 있어!"@,
    {
        "사람이 날고 있어!"
    }

    pub fn magic() -> (s: &'static str)
        ensures
            s@ == "인간은 말빨이라는 마법을 가지고 있어..."@,
    {
        "인간은 말빨이라는 마법을 가지고 있어..."
    }
}

impl Pilot for Human {
    fn fly(&self) -> (s: &'static str)
        ensures
            s@ == "비행기가 날고 있어"@,
    {
        "비행기가 날고 있어"
    }
}

impl Wizard for Human {
    fn fly(&self) -> (s: &'static str)
        ensures
            s@ == "마법사 비행은 역시 빗자루가 근본"@,
    {
        "마법사 비행은 역시 빗자루가 근본"
    }

    fn magic() -> (s: &'static str)
        ensures
            s@ == "마법사의 파이어볼을 받아랏!"@,
    {
        "마법사의 파이어볼을 받아랏!"
    }
}

} // verus!
