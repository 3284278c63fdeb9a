//! Mixing primary colours into secondary ones.
use vstd::prelude::*;

verus! {

/// A primary colour.
#[derive(Debug, Clone, Copy, PartialEq, Eq, Structural)]
pub enum PrimaryColor {
    Red,
    Yellow,
    Blue,
}

/// A secondary colour, the mix of two different primary colours.
#[derive(Debug, Clone, Copy, PartialEq, Eq, Structural)]
pub enum SecondaryColor {
    Orange,
    Green,
    Purple,
}

/// The colour that two different primaries make: the secondary that does
/// not use the primary missing from the pair.
pub open spec fn mixed(c1: PrimaryColor, c2: PrimaryColor) -> SecondaryColor {
    if c1 != PrimaryColor::Red && c2 != PrimaryColor::Red {
        SecondaryColor::Green
    } else if c1 != PrimaryColor::Yellow && c2 != PrimaryColor::Yellow {
        SecondaryColor::Purple
    } else {
        SecondaryColor::Orange
    }
}

/// Mixes two primary colours. Two equal colours make nothing new.
pub fn mix(c1: PrimaryColor, c2: PrimaryColor) -> (r: Result<SecondaryColor, &'static str>)
    ensures
        r is Ok <==> c1 != c2,
        r matches Ok(s) ==> s == mixed(c1, c2),
        r matches Err(e) ==> e@ == "two colors are same"@,
{
    let mut red: u8 = 0;
    let mut yellow: u8 = 0;
    let mut blue: u8 = 0;
    match c1 {
        PrimaryColor::Red => red += 1,
        PrimaryColor::Yellow => yellow += 1,
        PrimaryColor::Blue => blue += 1,
    }
    match c2 {
        PrimaryColor::Red => red += 1,
        PrimaryColor::Yellow => yellow += 1,
        PrimaryColor::Blue => blue += 1,
    }
    if red == 2 || yellow == 2 || blue == 2 {
        return Err("two colors are same");
    }
    if red == 0 {
        Ok(SecondaryColor::Green)
    } else if yellow == 0 {
        Ok(SecondaryColor::Purple)
    } else {
        Ok(SecondaryColor::Orange)
    }
}

/// Adds two numbers.
pub fn add(x: i32, y: i32) -> (r: i32)
    requires
        i32::MIN <= x + y <= i32::MAX,
    ensures
        r == x + y,
{
    x + y
}

} // verus!
