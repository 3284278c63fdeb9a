//! A shirt giveaway: the customer's preferred colour, or else the colour
//! the store has most of.
use vstd::prelude::*;

verus! {

#[derive(Debug, Clone, Copy, PartialEq, Eq, Structural)]
pub enum ShirtColor {
    Red,
    Blue,
}

/// How many shirts of `color` the sequence holds.
pub open spec fn count_of(shirts: Seq<ShirtColor>, color: ShirtColor) -> nat
    decreases shirts.len(),
{
    if shirts.len() == 0 {
        0
    } else {
        count_of(shirts.drop_last(), color) + if shirts.last() == color {
            1nat
        } else {
            0nat
        }
    }
}

proof fn lemma_count_bounded(shirts: Seq<ShirtColor>, color: ShirtColor)
    ensures
        count_of(shirts, color) <= shirts.len(),
    decreases shirts.len(),
{
    if shirts.len() > 0 {
        lemma_count_bounded(shirts.drop_last(), color);
    }
}

/// The colour of which there are strictly more shirts; blue on a tie.
pub open spec fn most_stocked_of(shirts: Seq<ShirtColor>) -> ShirtColor {
    if count_of(shirts, ShirtColor::Red) > count_of(shirts, ShirtColor::Blue) {
        ShirtColor::Red
    } else {
        ShirtColor::Blue
    }
}

pub struct Inventory {
    pub shirts: Vec<ShirtColor>,
}

impl Inventory {
    /// The customer's preference if there is one, else the most stocked
    /// colour.
    pub fn giveaway(&self, user_preference: Option<ShirtColor>) -> (c: ShirtColor)
        ensures
            c == match user_preference {
                Some(p) => p,
                None => most_stocked_of(self.shirts@),
            },
    {
        match user_preference {
            Some(p) => p,
            None => self.most_stocked(),
        }
    }

    /// The colour the inventory holds most of; blue on a tie.
    pub fn most_stocked(&self) -> (c: ShirtColor)
        ensures
            c == most_stocked_of(self.shirts@),
    {
        let mut num_red: usize = 0;
        let mut num_blue: usize = 0;
        let mut i: usize = 0;
        while i < self.shirts.len()
            invariant
                i <= self.shirts@.len(),
                num_red == count_of(self.shirts@.take(i as int), ShirtColor::Red),
                num_blue == count_of(self.shirts@.take(i as int), ShirtColor::Blue),
            decreases self.shirts@.len() - i,
        {
            let ghost before = self.shirts@.take(i as int);
            assert(self.shirts@.take(i + 1).drop_last() =~= before);
            proof {
                lemma_count_bounded(self.shirts@.take(i + 1), ShirtColor::Red);
                lemma_count_bounded(self.shirts@.take(i + 1), ShirtColor::Blue);
            }
            match self.shirts[i] {
                ShirtColor::Red => num_red += 1,
                ShirtColor::Blue => num_blue += 1,
            }
            i += 1;
        }
        assert(self.shirts@.take(i as int) =~= self.shirts@);
        if num_red > num_blue {
            ShirtColor::Red
        } else {
            ShirtColor::Blue
        }
    }
}

} // verus!
