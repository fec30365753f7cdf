//! One segment of the chain: a position, a step vector and a size.
use vstd::prelude::*;

verus! {

/// Radius of a body segment.
pub const SEG_RADIUS: i32 = 10;

/// The colour a piece of the playfield is drawn in. It plays no part in the
/// simulation beyond telling neighbouring body segments apart.
#[derive(Clone, Copy, Debug, PartialEq, Eq, Structural)]
pub enum Tint {
    Green,
    Yellow,
    Red,
}

/// A segment at `(x, y)`. `(dx, dy)` is the unit step the segment takes when it
/// moves by itself, which only the head does.
#[derive(Clone, Copy, Debug, PartialEq, Eq, Structural)]
pub struct Seg {
    pub dx: i8,
    pub dy: i8,
    pub x: i32,
    pub y: i32,
    pub radius: i32,
    pub color: Tint,
}

impl Seg {
    /// The segment that `Seg::new(x, y)` builds.
    pub open spec fn at(x: i32, y: i32) -> Seg {
        Seg { dx: 1, dy: 0, x, y, radius: SEG_RADIUS, color: Tint::Green }
    }

    /// A green body segment at `(x, y)` heading right.
    pub fn new(x: i32, y: i32) -> (r: Seg)
        ensures
            r == Seg::at(x, y),
    {
        Seg { dx: 1, dy: 0, x, y, radius: SEG_RADIUS, color: Tint::Green }
    }
}

} // verus!
