//! A food item.
use vstd::prelude::*;

verus! {

/// Radius of a food item. Its reach, twice the radius, exceeds the head's
/// step, so food lying under the head is still in reach after the head moves.
pub const APPLE_RADIUS: i32 = 14;

/// A food item at `(x, y)`. An inactive item has been eaten: it is neither
/// drawn nor collided with again.
#[derive(Clone, Copy, Debug, PartialEq, Eq, Structural)]
pub struct Apple {
    pub x: i32,
    pub y: i32,
    pub radius: i32,
    pub active: bool,
}

impl Apple {
    /// The item that `Apple::new(x, y)` builds.
    pub open spec fn fresh(x: i32, y: i32) -> Apple {
        Apple { x, y, radius: APPLE_RADIUS, active: true }
    }

    /// The same item, eaten.
    pub open spec fn eaten(self) -> Apple {
        Apple { active: false, ..self }
    }

    /// An active food item at `(x, y)`.
    pub fn new(x: i32, y: i32) -> (r: Apple)
        ensures
            r == Apple::fresh(x, y),
    {
        Apple { x, y, radius: APPLE_RADIUS, active: true }
    }
}

} // verus!
