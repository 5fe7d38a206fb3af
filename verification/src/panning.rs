//! The panning law, stated over exact integers.
//!
//! The pan transform maps a pan position in [-100, 100] to t in [0, 1] by
//! t = clamp(pan, -100, 100) / 200 + 1/2. Everything here is scaled by 200 to
//! stay in integers: a gain g in [0, 1] appears as its numerator over 200.
//! Only the linear curve's algebra is exact in integers; the square and sine
//! curves go through sqrt and sin and live with the floating-point kernel.

use vstd::prelude::*;

verus! {

pub open spec fn clamp_pan(pan: int) -> int {
    if pan < -100 {
        -100
    } else if pan > 100 {
        100
    } else {
        pan
    }
}

/// Numerator over 200 of the pan transform t.
pub open spec fn pan_t_num(pan: int) -> int {
    clamp_pan(pan) + 100
}

/// Numerator over 200 of the linear curve's left gain, 1 - t.
pub open spec fn linear_left_num(pan: int) -> int {
    200 - pan_t_num(pan)
}

/// Numerator over 200 of the linear curve's right gain, t.
pub open spec fn linear_right_num(pan: int) -> int {
    pan_t_num(pan)
}

/// The pan transform always lands in [0, 1]: its numerator in [0, 200], so
/// both linear gains do too.
pub proof fn lemma_pan_transform_in_range(pan: int)
    ensures
        0 <= pan_t_num(pan) <= 200,
        0 <= linear_left_num(pan) <= 200,
        0 <= linear_right_num(pan) <= 200,
{
}

/// The linear gains sum to unity at every pan position. (The square and sine
/// curves do not share this: they are calibrated for equal power, not unit
/// sum.)
pub proof fn lemma_linear_gains_sum_to_unity(pan: int)
    ensures
        linear_left_num(pan) + linear_right_num(pan) == 200,
{
}

/// Hard-left pan: full left gain, zero right gain on the linear curve.
pub proof fn lemma_linear_hard_left_boundary(pan: int)
    requires
        pan <= -100,
    ensures
        linear_left_num(pan) == 200,
        linear_right_num(pan) == 0,
{
}

/// Hard-right pan: zero left gain, full right gain on the linear curve.
pub proof fn lemma_linear_hard_right_boundary(pan: int)
    requires
        pan >= 100,
    ensures
        linear_left_num(pan) == 0,
        linear_right_num(pan) == 200,
{
}

/// Centered pan: the two linear gains are equal, one half each.
pub proof fn lemma_linear_center_gains_equal()
    ensures
        linear_left_num(0) == 100,
        linear_right_num(0) == 100,
{
}

} // verus!
