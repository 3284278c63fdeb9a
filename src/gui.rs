//! Screens that draw their components, each component drawing itself as
//! one line of text.
use vstd::prelude::*;

use crate::text::{decimal, decimal_of, signed_decimal, signed_decimal_of};

verus! {

/// Something a screen can draw.
pub trait Draw {
    /// The line that drawing shows.
    spec fn drawing(&self) -> Seq<char>;

    fn draw(&self) -> (s: String)
        ensures
            s@ == self.drawing(),
    ;
}

/// A screen of components of any kinds.
pub struct Screen {
    pub components: Vec<Box<dyn Draw>>,
}

impl Screen {
    /// Draws every component, in order.
    pub fn run(&self) -> (lines: Vec<String>)
        ensures
            lines@.len() == self.components@.len(),
            forall|k: int|
                0 <= k < lines@.len() ==> (#[trigger] lines@[k])@ == self.components@[k].drawing(),
    {
        let mut out: Vec<String> = Vec::new();
        let mut k: usize = 0;
        while k < self.components.len()
            invariant
                k <= self.components@.len(),
                out@.len() == k,
                forall|j: int|
                    0 <= j < k ==> (#[trigger] out@[j])@ == self.components@[j].drawing(),
            decreases self.components@.len() - k,
        {
            out.push(self.components[k].draw());
            k += 1;
        }
        out
    }
}

/// A screen whose components are all of one kind.
pub struct Screen2<T: Draw> {
    pub components: Vec<T>,
}

impl<T: Draw> Screen2<T> {
    /// Draws every component, in order.
    pub fn run(&self) -> (lines: Vec<String>)
        ensures
            lines@.len() == self.components@.len(),
            forall|k: int|
                0 <= k < lines@.len() ==> (#[trigger] lines@[k])@ == self.components@[k].drawing(),
    {
        let mut out: Vec<String> = Vec::new();
        let mut k: usize = 0;
        while k < self.components.len()
            invariant
                k <= self.components@.len(),
                out@.len() == k,
                forall|j: int|
                    0 <= j < k ==> (#[trigger] out@[j])@ == self.components@[j].drawing(),
            decreases self.components@.len() - k,
        {
            out.push(self.components[k].draw());
            k += 1;
        }
        out
    }
}

/// `(width,height)`, as buttons and select boxes show their size.
pub open spec fn size_text(width: u32, height: u32) -> Seq<char> {
    seq!['('] + decimal_of(width as nat) + seq![','] + decimal_of(height as nat) + seq![')']
}

fn size(width: u32, height: u32) -> (s: String)
    ensures
        s@ == size_text(width, height),
{
    let mut s = String::from_str("(");
    let w = decimal(width as u64);
    s.append(w.as_str());
    s.append(",");
    let h = decimal(height as u64);
    s.append(h.as_str());
    s.append(")");
    proof {
        reveal_strlit("(");
        reveal_strlit(",");
        reveal_strlit(")");
    }
    assert(s@ =~= size_text(width, height));
    s
}

pub struct Button {
    pub width: u32,
    pub height: u32,
    pub label: String,
}

impl Draw for Button {
    /// `Button: (width,height) label`.
    open spec fn drawing(&self) -> Seq<char> {
        "Button: "@ + size_text(self.width, self.height) + " "@ + self.label@
    }

    fn draw(&self) -> (s: String) {
        let mut s = String::from_str("Button: ");
        let dims = size(self.width, self.height);
        s.append(dims.as_str());
        s.append(" ");
        s.append(self.label.as_str());
        assert(s@ =~= self.drawing());
        s
    }
}

/// How `{:?}` shows a list of strings.
pub uninterp spec fn debug_list_of(items: Seq<Seq<char>>) -> Seq<char>;

/// Relies on the `Debug` formatting of `Vec<String>`: the result depends on
/// the strings alone.
#[verifier::external_body]
fn debug_list(items: &Vec<String>) -> (s: String)
    ensures
        s@ == debug_list_of(items@.map_values(|x: String| x@)),
{
    format!("{:?}", items)
}

pub struct SelectBox {
    pub width: u32,
    pub height: u32,
    pub options: Vec<String>,
}

impl Draw for SelectBox {
    /// `SelectBox: (width,height)` and the options as `{:?}` shows them.
    open spec fn drawing(&self) -> Seq<char> {
        "SelectBox: "@ + size_text(self.width, self.height) + " "@ + debug_list_of(
            self.options@.map_values(|x: String| x@),
        )
    }

    fn draw(&self) -> (s: String) {
        let mut s = String::from_str("SelectBox: ");
        let dims = size(self.width, self.height);
        s.append(dims.as_str());
        s.append(" ");
        let options = debug_list(&self.options);
        s.append(options.as_str());
        assert(s@ =~= self.drawing());
        s
    }
}

pub struct Dog {
    name: String,
    age: i32,
}

/// What a dog of `age` called `name` says when it barks.
pub open spec fn bark_text(name: Seq<char>, age: i32) -> Seq<char> {
    "올해 나이 "@ + signed_decimal_of(age as int) + "살인 "@ + name + "이/가 짖습니다."@
}

impl Dog {
    pub fn new(name: String, age: i32) -> (d: Dog)
        ensures
            d.spec_name() == name@,
            d.spec_age() == age,
    {
        Dog { name, age }
    }

    pub closed spec fn spec_name(&self) -> Seq<char> {
        self.name@
    }

    pub closed spec fn spec_age(&self) -> i32 {
        self.age
    }

    /// The dog's bark: its age and name.
    pub fn bark(&self) -> (s: String)
        ensures
            s@ == bark_text(self.spec_name(), self.spec_age()),
    {
        let mut s = String::from_str("올해 나이 ");
        let age = signed_decimal(self.age as i64);
        s.append(age.as_str());
        s.append("살인 ");
        s.append(self.name.as_str());
        s.append("이/가 짖습니다.");
        assert(s@ =~= bark_text(self.spec_name(), self.spec_age()));
        s
    }
}

/// The bark of a nine-year-old dog called 꼬리.
pub fn hello() -> (s: String)
    ensures
        s@ == bark_text("꼬리"@, 9),
{
    let dog = Dog::new(String::from_str("꼬리"), 9);
    dog.bark()
}

} // verus!
