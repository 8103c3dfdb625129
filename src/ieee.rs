//! IEEE-754 double-precision values read from their bit patterns.
//!
//! Each function here states, over the 64-bit pattern of a double, what the
//! corresponding `f64` predicate or comparison returns: NaN and finiteness
//! tests, the sign bit, the absolute value, and `<` / `<=`.
use vstd::prelude::*;

verus! {

/// Mask of the eleven exponent bits, once shifted down by `EXP_SHIFT`.
pub const EXP_MASK: u64 = 0x7ff;

/// Position of the lowest exponent bit.
pub const EXP_SHIFT: u64 = 52;

/// Mask of the fifty-two fraction bits.
pub const FRAC_MASK: u64 = 0xf_ffff_ffff_ffff;

/// Position of the sign bit.
pub const SIGN_SHIFT: u64 = 63;

/// Mask of every bit but the sign bit: exponent and fraction.
pub const MAG_MASK: u64 = 0x7fff_ffff_ffff_ffff;

/// The pattern encodes a NaN: all exponent bits set, fraction non-zero.
pub open spec fn is_nan_spec(bits: u64) -> bool {
    (bits >> EXP_SHIFT) & EXP_MASK == EXP_MASK && bits & FRAC_MASK != 0
}

/// The pattern encodes a finite value: not all exponent bits set.
pub open spec fn is_finite_spec(bits: u64) -> bool {
    (bits >> EXP_SHIFT) & EXP_MASK != EXP_MASK
}

/// The sign bit is set (`f64::is_sign_negative`).
pub open spec fn is_sign_negative_spec(bits: u64) -> bool {
    bits >> SIGN_SHIFT == 1
}

/// The pattern with the sign bit cleared (`f64::abs`).
pub open spec fn abs_spec(bits: u64) -> u64 {
    bits & MAG_MASK
}

/// The pattern encodes `+0.0` or `-0.0`.
pub open spec fn is_zero_spec(bits: u64) -> bool {
    abs_spec(bits) == 0
}

/// For a value that is not NaN, an integer that orders as the value does:
/// the magnitude bits grow with the absolute value, infinity included, and
/// both zeros map to `0`.
pub open spec fn order_key(bits: u64) -> int {
    if is_sign_negative_spec(bits) {
        -(abs_spec(bits) as int)
    } else {
        abs_spec(bits) as int
    }
}

/// `a <= b` on doubles: false as soon as one side is NaN.
pub open spec fn le_spec(a: u64, b: u64) -> bool {
    !is_nan_spec(a) && !is_nan_spec(b) && order_key(a) <= order_key(b)
}

/// `a < b` on doubles: false as soon as one side is NaN.
pub open spec fn lt_spec(a: u64, b: u64) -> bool {
    !is_nan_spec(a) && !is_nan_spec(b) && order_key(a) < order_key(b)
}

/// `f64::is_nan` on the value with pattern `bits`.
pub fn is_nan(bits: u64) -> (r: bool)
    ensures
        r == is_nan_spec(bits),
{
    (bits >> EXP_SHIFT) & EXP_MASK == EXP_MASK && bits & FRAC_MASK != 0
}

/// `f64::is_finite` on the value with pattern `bits`.
pub fn is_finite(bits: u64) -> (r: bool)
    ensures
        r == is_finite_spec(bits),
{
    (bits >> EXP_SHIFT) & EXP_MASK != EXP_MASK
}

/// `f64::is_sign_negative` on the value with pattern `bits`.
pub fn is_sign_negative(bits: u64) -> (r: bool)
    ensures
        r == is_sign_negative_spec(bits),
{
    bits >> SIGN_SHIFT == 1
}

/// `f64::abs` on the value with pattern `bits`.
pub fn abs(bits: u64) -> (r: u64)
    ensures
        r == abs_spec(bits),
        !is_sign_negative_spec(r),
        is_nan_spec(r) == is_nan_spec(bits),
        is_finite_spec(r) == is_finite_spec(bits),
{
    let r = bits & MAG_MASK;
    assert(r >> 63u64 != 1u64) by (bit_vector)
        requires
            r == bits & 0x7fff_ffff_ffff_ffffu64,
    ;
    assert((r >> 52u64) & 0x7ffu64 == (bits >> 52u64) & 0x7ffu64 && r & 0xf_ffff_ffff_ffffu64
        == bits & 0xf_ffff_ffff_ffffu64) by (bit_vector)
        requires
            r == bits & 0x7fff_ffff_ffff_ffffu64,
    ;
    r
}

/// `a <= b` on the values with patterns `a` and `b`.
pub fn le(a: u64, b: u64) -> (r: bool)
    ensures
        r == le_spec(a, b),
{
    if is_nan(a) || is_nan(b) {
        return false;
    }
    let ma = a & MAG_MASK;
    let mb = b & MAG_MASK;
    match (is_sign_negative(a), is_sign_negative(b)) {
        (false, false) => ma <= mb,
        (true, true) => mb <= ma,
        (true, false) => true,
        (false, true) => ma == 0 && mb == 0,
    }
}

/// `a < b` on the values with patterns `a` and `b`.
pub fn lt(a: u64, b: u64) -> (r: bool)
    ensures
        r == lt_spec(a, b),
{
    if is_nan(a) || is_nan(b) {
        return false;
    }
    let ma = a & MAG_MASK;
    let mb = b & MAG_MASK;
    match (is_sign_negative(a), is_sign_negative(b)) {
        (false, false) => ma < mb,
        (true, true) => mb < ma,
        (true, false) => ma != 0 || mb != 0,
        (false, true) => false,
    }
}

/// A finite value is not NaN.
pub proof fn lemma_finite_not_nan(bits: u64)
    requires
        is_finite_spec(bits),
    ensures
        !is_nan_spec(bits),
{
    assert(!is_nan_spec(bits)) by (bit_vector)
        requires
            (bits >> 52u64) & 0x7ffu64 != 0x7ffu64,
    ;
}

} // verus!
