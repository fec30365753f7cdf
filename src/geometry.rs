//! Wrap-around coordinate arithmetic and integer distance tests.
use vstd::prelude::*;

verus! {

/// The largest playfield extent, on either axis, that a session accepts.
pub const MAX_EXTENT: i32 = 1_000_000;

/// A coordinate brought back onto the playfield `[0, extent]`: below zero it
/// re-enters at the far edge, beyond the far edge it re-enters at zero.
pub open spec fn wrap_spec(c: int, extent: int) -> int {
    if c < 0 {
        extent
    } else if c > extent {
        0
    } else {
        c
    }
}

/// Wraps one coordinate onto `[0, extent]`.
pub fn wrap(c: i32, extent: i32) -> (r: i32)
    ensures
        r == wrap_spec(c as int, extent as int),
{
    if c < 0 {
        extent
    } else if c > extent {
        0
    } else {
        c
    }
}

/// For every coordinate and every positive extent, a wrapped coordinate lies on
/// the playfield, and wrapping it again leaves it where it is.
pub proof fn lemma_wrap_in_range_idempotent(c: int, extent: int)
    requires
        extent > 0,
    ensures
        0 <= wrap_spec(c, extent) <= extent,
        wrap_spec(wrap_spec(c, extent), extent) == wrap_spec(c, extent),
{
}

/// Whether two points lie strictly closer than `reach` to each other
/// (Euclidean distance, compared through squares).
pub open spec fn within(ax: int, ay: int, bx: int, by: int, reach: int) -> bool {
    reach > 0 && (ax - bx) * (ax - bx) + (ay - by) * (ay - by) < reach * reach
}

/// Whether `(ax, ay)` and `(bx, by)` are strictly closer than `reach`.
pub fn is_within(ax: i32, ay: i32, bx: i32, by: i32, reach: i64) -> (r: bool)
    ensures
        r == within(ax as int, ay as int, bx as int, by as int, reach as int),
{
    if reach <= 0 {
        return false;
    }
    let dx: i128 = ax as i128 - bx as i128;
    let dy: i128 = ay as i128 - by as i128;
    let t: i128 = reach as i128;
    assert(0 <= dx * dx <= 0x1_0000_0000 * 0x1_0000_0000) by (nonlinear_arith)
        requires
            -0x1_0000_0000 <= dx <= 0x1_0000_0000,
    ;
    assert(0 <= dy * dy <= 0x1_0000_0000 * 0x1_0000_0000) by (nonlinear_arith)
        requires
            -0x1_0000_0000 <= dy <= 0x1_0000_0000,
    ;
    assert(0 <= t * t <= 0x8000_0000_0000_0000 * 0x8000_0000_0000_0000) by (nonlinear_arith)
        requires
            0 < t <= 0x8000_0000_0000_0000,
    ;
    dx * dx + dy * dy < t * t
}

} // verus!
