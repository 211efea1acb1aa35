//! A model of IEEE-754 single-precision values through their bit patterns.
//!
//! The simulator's zoom factor and gravitational constant are 32-bit
//! floating-point values in the shell around this library. Verified code
//! works on their bit patterns instead: for values that are not NaN, the
//! IEEE-754 encoding orders exactly by sign and magnitude, so comparisons
//! and clamping can be stated and checked over plain integers. The shell
//! moves values across this boundary with the standard to-bits/from-bits
//! conversions, which are exact.

use vstd::prelude::*;

verus! {

/// Bit pattern of the smallest interactive zoom factor, 0.01.
pub const ZOOM_MIN_BITS: u32 = 0x3C23_D70A;

/// Bit pattern of the largest interactive zoom factor, 10.0.
pub const ZOOM_MAX_BITS: u32 = 0x4120_0000;

/// The sign bit of the encoded value: set for negative values and -0.0.
pub open spec fn f32_sign(bits: u32) -> bool {
    bits >= 0x8000_0000
}

/// The magnitude field (everything but the sign bit).
pub open spec fn f32_magnitude(bits: u32) -> u32 {
    if f32_sign(bits) {
        (bits - 0x8000_0000) as u32
    } else {
        bits
    }
}

/// NaN: exponent all ones with a nonzero mantissa.
pub open spec fn f32_is_nan(bits: u32) -> bool {
    f32_magnitude(bits) > 0x7F80_0000
}

/// The encoded values are equal: same pattern, or both are zeros
/// (+0.0 and -0.0 compare equal).
pub open spec fn f32_eq(a: u32, b: u32) -> bool {
    a == b || (f32_magnitude(a) == 0 && f32_magnitude(b) == 0)
}

/// The value encoded by `a` is strictly below the one encoded by `b`;
/// meaningful only when neither is NaN.
pub open spec fn f32_lt(a: u32, b: u32) -> bool {
    if f32_sign(a) {
        if f32_sign(b) {
            f32_magnitude(b) < f32_magnitude(a)
        } else {
            !(f32_magnitude(a) == 0 && f32_magnitude(b) == 0)
        }
    } else {
        if f32_sign(b) {
            false
        } else {
            f32_magnitude(a) < f32_magnitude(b)
        }
    }
}

/// Below or equal, in the encoded-value order.
pub open spec fn f32_le(a: u32, b: u32) -> bool {
    f32_lt(a, b) || f32_eq(a, b)
}

/// The encoded value is strictly positive.
pub open spec fn f32_is_positive(bits: u32) -> bool {
    0 < bits <= 0x7F80_0000
}

/// Compares two encoded values; callers keep NaN out, where the encoded
/// order means nothing.
pub fn f32_bits_lt(a: u32, b: u32) -> (r: bool)
    requires
        !f32_is_nan(a),
        !f32_is_nan(b),
    ensures
        r == f32_lt(a, b),
{
    let sign_a = a >= 0x8000_0000;
    let sign_b = b >= 0x8000_0000;
    let mag_a = if sign_a { a - 0x8000_0000 } else { a };
    let mag_b = if sign_b { b - 0x8000_0000 } else { b };
    if sign_a {
        if sign_b {
            mag_b < mag_a
        } else {
            !(mag_a == 0 && mag_b == 0)
        }
    } else {
        if sign_b {
            false
        } else {
            mag_a < mag_b
        }
    }
}

/// Whether the encoded value is strictly positive; the test the GUI
/// applies to an edited gravitational constant.
pub fn f32_bits_is_positive(bits: u32) -> (r: bool)
    ensures
        r == f32_is_positive(bits),
{
    0 < bits && bits <= 0x7F80_0000
}

/// Clamps a candidate zoom factor into the interactive range
/// `[0.01, 10.0]`, whatever scroll delta produced the candidate: values
/// below the range land on its lower bound, values above it (infinity
/// included) on its upper bound, and values inside pass through unchanged.
pub fn clamp_zoom(candidate: u32) -> (r: u32)
    requires
        !f32_is_nan(candidate),
    ensures
        f32_le(ZOOM_MIN_BITS, r),
        f32_le(r, ZOOM_MAX_BITS),
        f32_lt(candidate, ZOOM_MIN_BITS) ==> r == ZOOM_MIN_BITS,
        f32_lt(ZOOM_MAX_BITS, candidate) ==> r == ZOOM_MAX_BITS,
        f32_le(ZOOM_MIN_BITS, candidate) && f32_le(candidate, ZOOM_MAX_BITS)
            ==> r == candidate,
{
    if f32_bits_lt(candidate, ZOOM_MIN_BITS) {
        ZOOM_MIN_BITS
    } else if f32_bits_lt(ZOOM_MAX_BITS, candidate) {
        ZOOM_MAX_BITS
    } else {
        candidate
    }
}

} // verus!
