//! The equipment a character can carry. The combat rules read nothing of an
//! item but the strength it contributes.

use vstd::prelude::*;

verus! {

/// A weapon: its strength is added to the physical attack of its bearer.
#[derive(Debug, Clone, Copy, PartialEq, Eq, Structural)]
pub struct Sword {
    pub strength: i32,
}

impl Sword {
    /// A sword that contributes `strength` points.
    pub fn new(strength: i32) -> (sword: Self)
        ensures
            sword.strength == strength,
    {
        Sword { strength }
    }

    /// The points this sword adds to an attack.
    pub fn strength(&self) -> (points: i32)
        ensures
            points == self.strength,
    {
        self.strength
    }
}

/// A shield: its strength is taken off the damage its bearer receives.
#[derive(Debug, Clone, Copy, PartialEq, Eq, Structural)]
pub struct Shield {
    pub strength: i32,
}

impl Shield {
    /// A shield that contributes `strength` points.
    pub fn new(strength: i32) -> (shield: Self)
        ensures
            shield.strength == strength,
    {
        Shield { strength }
    }

    /// The points this shield takes off an attack.
    pub fn strength(&self) -> (points: i32)
        ensures
            points == self.strength,
    {
        self.strength
    }
}

} // verus!
