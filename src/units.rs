//! The three ways to walk a string: its bytes, its characters and its
//! grapheme clusters.
use unicode_segmentation::UnicodeSegmentation;
use vstd::prelude::*;
use vstd::string::StringSliceAdditionalSpecFns;

use crate::text::{chars_of, decimal, decimal_of, push_char};

verus! {

/// `parts` with `sep` between each two neighbours.
pub open spec fn joined(parts: Seq<Seq<char>>, sep: Seq<char>) -> Seq<char>
    decreases parts.len(),
{
    if parts.len() == 0 {
        Seq::empty()
    } else if parts.len() == 1 {
        parts[0]
    } else {
        joined(parts.drop_last(), sep) + sep + parts.last()
    }
}

/// Joins `parts` with `sep` between each two neighbours.
pub fn join(parts: &Vec<String>, sep: &str) -> (r: String)
    ensures
        r@ == joined(parts@.map_values(|p: String| p@), sep@),
{
    let ghost views = parts@.map_values(|p: String| p@);
    let mut r = String::new();
    let mut k: usize = 0;
    while k < parts.len()
        invariant
            k <= parts@.len(),
            views == parts@.map_values(|p: String| p@),
            r@ == joined(views.take(k as int), sep@),
        decreases parts@.len() - k,
    {
        assert(views.take(k + 1).drop_last() =~= views.take(k as int));
        if k > 0 {
            r.append(sep);
        }
        r.append(parts[k].as_str());
        proof {
            if k == 0 {
                assert(views.take(1) =~= seq![views[0]]);
            }
        }
        k += 1;
    }
    assert(views.take(k as int) =~= views);
    r
}

/// The grapheme clusters of a text, as `unicode_segmentation` finds them.
pub uninterp spec fn graphemes_of(s: Seq<char>) -> Seq<Seq<char>>;

/// Relies on `UnicodeSegmentation::graphemes` with extended clusters: the
/// clusters of the text, in order; they depend on the characters alone.
#[verifier::external_body]
fn graphemes(s: &str) -> (r: Vec<String>)
    ensures
        r@.map_values(|g: String| g@) == graphemes_of(s@),
{
    s.graphemes(true).map(String::from).collect()
}

/// A string shown three ways, each a list separated by spaces.
pub struct StringUnits {
    /// Every byte of the UTF-8 encoding, in decimal.
    pub bytes: String,
    /// Every character.
    pub chars: String,
    /// Every grapheme cluster.
    pub graphemes: String,
}

/// The decimal numerals of the bytes of `s`, separated by spaces.
pub open spec fn bytes_text(s: Seq<u8>) -> Seq<char> {
    joined(s.map_values(|b: u8| decimal_of(b as nat)), " "@)
}

/// The characters of `s`, separated by spaces.
pub open spec fn chars_text(s: Seq<char>) -> Seq<char> {
    joined(s.map_values(|c: char| seq![c]), " "@)
}

/// Lists the bytes, the characters and the grapheme clusters of `s`.
pub fn string_units(s: &str) -> (u: StringUnits)
    ensures
        u.bytes@ == bytes_text(s.spec_bytes()),
        u.chars@ == chars_text(s@),
        u.graphemes@ == joined(graphemes_of(s@), " "@),
{
    let raw = s.as_bytes();
    let mut numbers: Vec<String> = Vec::new();
    let mut k: usize = 0;
    while k < raw.len()
        invariant
            raw@ == s.spec_bytes(),
            k <= raw@.len(),
            numbers@.len() == k,
            forall|j: int| 0 <= j < k ==> (#[trigger] numbers@[j])@ == decimal_of(raw@[j] as nat),
        decreases raw@.len() - k,
    {
        let d = decimal(raw[k] as u64);
        numbers.push(d);
        k += 1;
    }
    assert(numbers@.map_values(|p: String| p@) =~= raw@.map_values(|b: u8| decimal_of(b as nat)));
    let chars = chars_of(s);
    let mut singles: Vec<String> = Vec::new();
    let mut k: usize = 0;
    while k < chars.len()
        invariant
            chars@ == s@,
            k <= chars@.len(),
            singles@.len() == k,
            forall|j: int| 0 <= j < k ==> (#[trigger] singles@[j])@ == seq![chars@[j]],
        decreases chars@.len() - k,
    {
        let mut one = String::new();
        push_char(&mut one, chars[k]);
        assert(one@ =~= seq![chars@[k as int]]);
        singles.push(one);
        k += 1;
    }
    assert(singles@.map_values(|p: String| p@) =~= chars@.map_values(|c: char| seq![c]));
    let clusters = graphemes(s);
    StringUnits {
        bytes: join(&numbers, " "),
        chars: join(&singles, " "),
        graphemes: join(&clusters, " "),
    }
}

} // verus!
