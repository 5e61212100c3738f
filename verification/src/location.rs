//! What the game rules read of a place: whether it is home, whether it is the
//! special area, and how far from home it lies.

use vstd::prelude::*;

verus! {

/// How far a place is from home: one of three ordered tiers, each with the
/// number of steps that separate the place from home.
#[derive(Debug, Clone, Copy, PartialEq, Eq, Structural)]
pub enum Distance {
    Near(i32),
    Mid(i32),
    Far(i32),
}

impl Distance {
    /// The number of steps from home, whatever the tier.
    pub open spec fn depth(self) -> int {
        match self {
            Distance::Near(steps) => steps as int,
            Distance::Mid(steps) => steps as int,
            Distance::Far(steps) => steps as int,
        }
    }

    /// The number of steps from home, whatever the tier.
    pub fn len(&self) -> (steps: i32)
        ensures
            steps == self.depth(),
    {
        match self {
            Distance::Near(steps) => *steps,
            Distance::Mid(steps) => *steps,
            Distance::Far(steps) => *steps,
        }
    }
}

/// A place in the world, as far as encounters depend on it.
#[derive(Debug, Clone, Copy, PartialEq, Eq, Structural)]
pub struct Location {
    pub home: bool,
    pub special_area: bool,
    pub distance: Distance,
}

impl Location {
    /// Whether this place is the player's home.
    pub fn is_home(&self) -> (home: bool)
        ensures
            home == self.home,
    {
        self.home
    }

    /// Whether this place is the special area.
    pub fn is_special_area(&self) -> (special: bool)
        ensures
            special == self.special_area,
    {
        self.special_area
    }

    /// How far this place is from home.
    pub fn distance_from_home(&self) -> (distance: Distance)
        ensures
            distance == self.distance,
    {
        self.distance
    }
}

} // verus!
