//! An enemy that loses hit points.
use vstd::prelude::*;

verus! {

pub struct Enemy {
    hp: i32,
}

impl Enemy {
    pub closed spec fn spec_hp(&self) -> i32 {
        self.hp
    }

    pub fn new(hp: i32) -> (e: Enemy)
        ensures
            e.spec_hp() == hp,
    {
        Enemy { hp }
    }

    /// Takes `damage` hit points off; damage must be positive.
    pub fn take_damage(&mut self, damage: i32)
        requires
            damage > 0,
            old(self).spec_hp() - damage >= i32::MIN,
        ensures
            final(self).spec_hp() == old(self).spec_hp() - damage,
    {
        self.hp -= damage;
    }

    /// The hit points left.
    pub fn hp(&self) -> (h: i32)
        ensures
            h == self.spec_hp(),
    {
        self.hp
    }
}

} // verus!
