//! The mid-side algebra, stated over mathematical integers.
//!
//! The executable encode and decode kernels compute in single precision in the
//! host shell; the laws here pin the algebra they implement down in exact
//! arithmetic. Decode performs no width compensation, so it inverts encode
//! only at width one — a documented asymmetry, not a defect.

use vstd::prelude::*;

verus! {

/// The mid signal of one sample pair: `(2 - width) * (l + r) / 2`.
pub open spec fn ms_mid(l: int, r: int, width: int) -> int {
    (2 - width) * (l + r) / 2
}

/// The side signal of one sample pair: `width * (l - r) / 2`.
pub open spec fn ms_side(l: int, r: int, width: int) -> int {
    width * (l - r) / 2
}

/// The left channel decode reconstructs: `mid + side`.
pub open spec fn ms_decode_left(mid: int, side: int) -> int {
    mid + side
}

/// The right channel decode reconstructs: `mid - side`.
pub open spec fn ms_decode_right(mid: int, side: int) -> int {
    mid - side
}

/// At width one, decode inverts encode exactly: encoding a sample pair and
/// decoding the result returns the original pair. Stated where the halves are
/// exact (an even sum; the difference is then even too).
pub proof fn lemma_mid_side_round_trip(l: int, r: int)
    requires
        (l + r) % 2 == 0,
    ensures
        ms_decode_left(ms_mid(l, r, 1), ms_side(l, r, 1)) == l,
        ms_decode_right(ms_mid(l, r, 1), ms_side(l, r, 1)) == r,
{
    let s = l + r;
    let d = l - r;
    assert(s == 2 * (s / 2));
    assert(d == s - 2 * r);
    assert(d / 2 == s / 2 - r);
    assert(ms_mid(l, r, 1) == s / 2);
    assert(ms_side(l, r, 1) == d / 2);
}

/// At width zero the side signal collapses to zero and the mid signal is the
/// full channel sum: the encoded block is a pure mono sum.
pub proof fn lemma_mid_side_width_zero(l: int, r: int)
    ensures
        ms_side(l, r, 0) == 0,
        ms_mid(l, r, 0) == l + r,
{
    assert(2 * (l + r) / 2 == l + r);
}

/// At width two the mid signal collapses to zero and the side signal is the
/// full channel difference.
pub proof fn lemma_mid_side_width_two(l: int, r: int)
    ensures
        ms_mid(l, r, 2) == 0,
        ms_side(l, r, 2) == l - r,
{
    assert(2 * (l - r) / 2 == l - r);
}

/// Twice the mid signal, keeping the general-width algebra in integers.
pub open spec fn ms_mid_x2(l: int, r: int, width: int) -> int {
    (2 - width) * (l + r)
}

/// Twice the side signal, at the same scale.
pub open spec fn ms_side_x2(l: int, r: int, width: int) -> int {
    width * (l - r)
}

/// The exact mismatch of a round trip at any width, stated at twice scale:
/// decoding a width-w encode of (l, r) yields l + (1 - w) * r on the left and
/// r + (1 - w) * l on the right. At width one, and only there, that is the
/// identity; at any other width the deviation is this formula, deliberately
/// not compensated by decode.
pub proof fn lemma_mid_side_round_trip_deviation(l: int, r: int, width: int)
    by (nonlinear_arith)
    ensures
        ms_decode_left(ms_mid_x2(l, r, width), ms_side_x2(l, r, width)) == 2 * (l + (1 - width)
            * r),
        ms_decode_right(ms_mid_x2(l, r, width), ms_side_x2(l, r, width)) == 2 * (r + (1 - width)
            * l),
{
}

} // verus!
