//! Picking words and characters out of text.
use vstd::prelude::*;
use vstd::string::{StrSliceExecFns, StringSliceAdditionalSpecFns};
use vstd::utf8::encode_utf8;

use crate::minigrep::{lines, lines_of};
use crate::text::chars_of;

verus! {

/// Unicode's `White_Space` property.
pub open spec fn is_white(c: char) -> bool {
    ||| ('\u{9}' <= c && c <= '\u{d}')
    ||| c == ' '
    ||| c == '\u{85}'
    ||| c == '\u{a0}'
    ||| c == '\u{1680}'
    ||| ('\u{2000}' <= c && c <= '\u{200a}')
    ||| c == '\u{2028}'
    ||| c == '\u{2029}'
    ||| c == '\u{202f}'
    ||| c == '\u{205f}'
    ||| c == '\u{3000}'
}

/// Whether `c` is white space.
pub fn white_space(c: char) -> (b: bool)
    ensures
        b == is_white(c),
{
    ('\u{9}' <= c && c <= '\u{d}') || c == ' ' || c == '\u{85}' || c == '\u{a0}' || c == '\u{1680}'
        || ('\u{2000}' <= c && c <= '\u{200a}') || c == '\u{2028}' || c == '\u{2029}' || c
        == '\u{202f}' || c == '\u{205f}' || c == '\u{3000}'
}

/// The byte length of the first word of `s`: the position of its first
/// space byte, or its whole length when it has none.
pub fn get_first_word_length(s: &String) -> (n: usize)
    ensures
        n <= encode_utf8(s@).len(),
        forall|j: int| 0 <= j < n ==> encode_utf8(s@)[j] != 32u8,
        n < encode_utf8(s@).len() ==> encode_utf8(s@)[n as int] == 32u8,
{
    let text = s.as_str();
    let bytes = text.as_bytes();
    assert(text.spec_bytes() == encode_utf8(s@));
    let mut i: usize = 0;
    while i < bytes.len()
        invariant
            bytes@ == encode_utf8(s@),
            i <= bytes@.len(),
            forall|j: int| 0 <= j < i ==> bytes@[j] != 32u8,
        decreases bytes@.len() - i,
    {
        if bytes[i] == 32u8 {
            return i;
        }
        i += 1;
    }
    bytes.len()
}

/// The first run of non-white characters of `s`; `s` itself when it has
/// none.
pub fn get_first_word(s: &String) -> (w: &str)
    ensures
        (forall|i: int| 0 <= i < s@.len() ==> is_white(#[trigger] s@[i])) ==> w@ == s@,
        (exists|i: int| 0 <= i < s@.len() && !is_white(#[trigger] s@[i])) ==> exists|
            start: int,
            end: int,
        |
            {
                &&& 0 <= start < end <= s@.len()
                &&& w@ == s@.subrange(start, end)
                &&& forall|i: int| 0 <= i < start ==> is_white(#[trigger] s@[i])
                &&& forall|i: int| start <= i < end ==> !is_white(#[trigger] s@[i])
                &&& end == s@.len() || is_white(s@[end])
            },
{
    let chars = chars_of(s.as_str());
    let n = chars.len();
    let mut start: usize = 0;
    while start < n && white_space(chars[start])
        invariant
            chars@ == s@,
            n == chars@.len(),
            start <= n,
            forall|i: int| 0 <= i < start ==> is_white(#[trigger] s@[i]),
        decreases n - start,
    {
        start += 1;
    }
    if start == n {
        return s.as_str();
    }
    let mut end: usize = start + 1;
    while end < n && !white_space(chars[end])
        invariant
            chars@ == s@,
            n == chars@.len(),
            start < end <= n,
            !is_white(s@[start as int]),
            forall|i: int| start <= i < end ==> !is_white(#[trigger] s@[i]),
        decreases n - end,
    {
        end += 1;
    }
    s.as_str().substring_char(start, end)
}

/// Appends ` added` to the string.
pub fn change_string(mystr: &mut String)
    ensures
        final(mystr)@ == old(mystr)@ + " added"@,
{
    mystr.append(" added");
}

/// The longer of two strings by byte length; the second on a tie.
pub fn longgest<'a>(x: &'a str, y: &'a str) -> (r: &'a str)
    ensures
        r == (if x.len() > y.len() {
            x
        } else {
            y
        }),
{
    if x.len() > y.len() {
        x
    } else {
        y
    }
}

/// The part of `full_name` before its first space; all of it when it holds
/// no space.
pub fn get_first_name(full_name: &str) -> (r: &str)
    ensures
        r@.len() <= full_name@.len(),
        r@ == full_name@.take(r@.len() as int),
        forall|i: int| 0 <= i < r@.len() ==> full_name@[i] != ' ',
        r@.len() < full_name@.len() ==> full_name@[r@.len() as int] == ' ',
{
    let chars = chars_of(full_name);
    let mut i: usize = 0;
    while i < chars.len() && chars[i] != ' '
        invariant
            chars@ == full_name@,
            i <= chars@.len(),
            forall|j: int| 0 <= j < i ==> full_name@[j] != ' ',
        decreases chars@.len() - i,
    {
        i += 1;
    }
    let r = full_name.substring_char(0, i);
    assert(r@ =~= full_name@.take(i as int));
    r
}

/// A record that borrows its name.
pub struct MyStruct<'a> {
    pub name: &'a str,
}

impl<'a> MyStruct<'a> {
    pub fn name(&self) -> (n: &str)
        ensures
            n == self.name,
    {
        self.name
    }
}

/// A string that lives as long as the program.
pub fn get_static() -> (s: &'static str)
    ensures
        s@ == "Hello"@,
{
    "Hello"
}

/// The last character of the first line of `text`, if the text has a line
/// and that line is not empty.
pub fn last_char_of_first_line(text: &str) -> (c: Option<char>)
    ensures
        c == (if lines_of(text@).len() > 0 && lines_of(text@)[0].len() > 0 {
            Some(lines_of(text@)[0].last())
        } else {
            None::<char>
        }),
{
    let all = lines(text);
    assert(all@.len() == lines_of(text@).len());
    if all.len() == 0 {
        return None;
    }
    assert(all@[0]@ == lines_of(text@)[0]);
    let first = chars_of(all[0]);
    if first.len() == 0 {
        None
    } else {
        Some(first[first.len() - 1])
    }
}

} // verus!
