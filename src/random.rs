//! The random source that places food.
use vstd::prelude::*;

verus! {

/// Relies on `macroquad::rand::gen_range` (quad-rand's `RandomRange` for `i32`):
/// it scales a uniform draw from `[0, 1)` onto `low..high` in `f64` and
/// truncates, which for `low <= high` lands in `[low, high]`. The value drawn
/// depends on the generator's state, so nothing more is promised.
#[verifier::external_body]
pub(crate) fn gen_range(low: i32, high: i32) -> (r: i32)
    requires
        low <= high,
    ensures
        low <= r <= high,
{
    macroquad::rand::gen_range(low, high)
}

} // verus!
