//! Arithmetic on raw 32-bit IEEE-754 bit patterns.
//!
//! Simulator datagrams carry telemetry values as little-endian 32-bit
//! floating-point words. The library never computes with floating point:
//! it keeps each value as its raw bit pattern (`u32`) and reasons about the
//! ordering those patterns encode. For non-NaN patterns the encoding is
//! sign-magnitude: clearing the sign bit yields a magnitude that grows with
//! the encoded value, so comparisons reduce to integer comparisons on a
//! signed key. Comparisons involving a NaN pattern are false, as they are
//! for the encoded values themselves.

use vstd::prelude::*;
use vstd::arithmetic::power2::{
    pow2, lemma_pow2_pos, lemma_pow2_adds, lemma_pow2_strictly_increases, lemma2_to64,
};
use vstd::arithmetic::div_mod::{lemma_div_is_ordered, lemma_div_nonincreasing, lemma_basic_div};
use vstd::bits::{lemma_u64_shr_is_div, lemma_u64_shl_is_mul};

verus! {

/// Bit pattern of positive zero.
pub const ZERO_BITS: u32 = 0;

/// Magnitude part of `b`: all bits except the sign bit.
pub open spec fn abs_bits(b: u32) -> u32 {
    if b >= 0x8000_0000 {
        (b - 0x8000_0000) as u32
    } else {
        b
    }
}

/// `b` encodes a NaN: maximal exponent with a nonzero fraction.
pub open spec fn is_nan_bits(b: u32) -> bool {
    abs_bits(b) > 0x7f80_0000
}

/// `b` encodes a zero (either sign).
pub open spec fn is_zero_bits(b: u32) -> bool {
    abs_bits(b) == 0
}

/// Signed key that orders non-NaN patterns exactly as the values they
/// encode, with both zeroes mapping to 0.
pub open spec fn order_key(b: u32) -> int {
    if b >= 0x8000_0000 {
        0x8000_0000 - b
    } else {
        b as int
    }
}

/// `a < b` on the encoded values; false when either is NaN.
pub open spec fn spec_lt(a: u32, b: u32) -> bool {
    &&& !is_nan_bits(a)
    &&& !is_nan_bits(b)
    &&& order_key(a) < order_key(b)
}

/// `a <= b` on the encoded values; false when either is NaN.
pub open spec fn spec_le(a: u32, b: u32) -> bool {
    &&& !is_nan_bits(a)
    &&& !is_nan_bits(b)
    &&& order_key(a) <= order_key(b)
}

/// `a > b` on the encoded values; false when either is NaN.
pub open spec fn spec_gt(a: u32, b: u32) -> bool {
    spec_lt(b, a)
}

/// `a >= b` on the encoded values; false when either is NaN.
pub open spec fn spec_ge(a: u32, b: u32) -> bool {
    spec_le(b, a)
}

/// The encoded value compares unequal to zero: a nonzero magnitude, or NaN
/// (a NaN compares unequal to everything, zero included).
pub open spec fn spec_ne_zero(b: u32) -> bool {
    is_nan_bits(b) || !is_zero_bits(b)
}

/// Magnitude part of `b`, computed.
pub fn abs_value_bits(b: u32) -> (r: u32)
    ensures
        r == abs_bits(b),
{
    if b >= 0x8000_0000 {
        b - 0x8000_0000
    } else {
        b
    }
}

/// Whether `b` encodes a NaN, computed.
pub fn nan_bits(b: u32) -> (r: bool)
    ensures
        r == is_nan_bits(b),
{
    abs_value_bits(b) > 0x7f80_0000
}

/// Whether `b` encodes a zero of either sign, computed.
pub fn zero_bits(b: u32) -> (r: bool)
    ensures
        r == is_zero_bits(b),
{
    abs_value_bits(b) == 0
}

/// The ordering key, widened so the negative range fits.
fn key_value(b: u32) -> (r: i64)
    ensures
        r as int == order_key(b),
{
    if b >= 0x8000_0000 {
        0x8000_0000i64 - (b as i64)
    } else {
        b as i64
    }
}

/// `a < b` on the encoded values.
pub fn lt_bits(a: u32, b: u32) -> (r: bool)
    ensures
        r == spec_lt(a, b),
{
    if nan_bits(a) || nan_bits(b) {
        false
    } else {
        key_value(a) < key_value(b)
    }
}

/// `a <= b` on the encoded values.
pub fn le_bits(a: u32, b: u32) -> (r: bool)
    ensures
        r == spec_le(a, b),
{
    if nan_bits(a) || nan_bits(b) {
        false
    } else {
        key_value(a) <= key_value(b)
    }
}

/// `a > b` on the encoded values.
pub fn gt_bits(a: u32, b: u32) -> (r: bool)
    ensures
        r == spec_gt(a, b),
{
    lt_bits(b, a)
}

/// `a >= b` on the encoded values.
pub fn ge_bits(a: u32, b: u32) -> (r: bool)
    ensures
        r == spec_ge(a, b),
{
    le_bits(b, a)
}

/// Whether the encoded value compares unequal to zero.
pub fn ne_zero_bits(b: u32) -> (r: bool)
    ensures
        r == spec_ne_zero(b),
{
    nan_bits(b) || !zero_bits(b)
}

/// The exponent field of `b`.
pub open spec fn exp_bits(b: u32) -> u32 {
    abs_bits(b) / 0x80_0000
}

/// The fraction field of `b`.
pub open spec fn frac_bits(b: u32) -> u32 {
    abs_bits(b) % 0x80_0000
}

/// The magnitude encoded by `b`, rounded down to a whole number: the
/// fraction with its hidden bit, scaled by two to the unbiased exponent.
/// Subnormal magnitudes are below one and floor to zero.
pub open spec fn floor_mag(b: u32) -> int {
    let e = exp_bits(b) as int;
    let m = frac_bits(b) as int;
    if e == 0 {
        0
    } else if e < 150 {
        (m + 0x80_0000) / (pow2((150 - e) as nat) as int)
    } else {
        (m + 0x80_0000) * (pow2((e - 150) as nat) as int)
    }
}

/// The value of `b` in hundreds, as a three-decimal-digit code: the
/// magnitude divided by one hundred, truncated the way a saturating
/// float-to-unsigned cast truncates (NaN and negative values to zero,
/// overlarge values to the largest 32-bit word), modulo one thousand.
pub open spec fn spec_hundreds_code(b: u32) -> u32 {
    if is_nan_bits(b) || b >= 0x8000_0000 {
        0
    } else if floor_mag(b) / 100 > 0xffff_ffff {
        (0xffff_ffffint % 1000) as u32
    } else {
        ((floor_mag(b) / 100) % 1000) as u32
    }
}

/// The three-decimal-digit code of `b` in hundreds, computed.
pub fn hundreds_code(b: u32) -> (r: u32)
    ensures
        r == spec_hundreds_code(b),
        r < 1000,
{
    if nan_bits(b) || b >= 0x8000_0000 {
        return 0;
    }
    let e: u32 = b / 0x80_0000;
    let m: u32 = b % 0x80_0000;
    assert(abs_bits(b) == b);
    assert(e == exp_bits(b) && m == frac_bits(b));

    if e == 0 {
        0
    } else if e >= 166 {
        // The magnitude is at least 2^39, so dividing by one hundred
        // still exceeds the largest 32-bit word and the cast saturates.
        proof {
            let ei = e as int;
            let mi = m as int;
            lemma_pow2_adds((ei - 166) as nat, 16);
            lemma_pow2_pos((ei - 166) as nat);
            lemma2_to64();
            assert((mi + 0x80_0000) * (pow2((ei - 150) as nat) as int) >= 0x80_0000_0000int)
                by (nonlinear_arith)
                requires
                    pow2((ei - 150) as nat) == pow2((ei - 166) as nat) * pow2(16),
                    pow2((ei - 166) as nat) >= 1,
                    pow2(16) == 0x1_0000,
                    mi >= 0,
            ;
            lemma_div_is_ordered(0x80_0000_0000int, floor_mag(b), 100);
        }
        0xffff_ffffu32 % 1000
    } else if e < 150 {
        let sh: u32 = 150 - e;
        if sh >= 64 {
            // The scale factor exceeds the magnitude's numerator, so the
            // floor is zero.
            proof {
                lemma2_to64();
                lemma_pow2_strictly_increases(24, sh as nat);
                lemma_basic_div((m + 0x80_0000) as int, pow2(sh as nat) as int);
            }
            0
        } else {
            let x: u64 = (m as u64) + 0x80_0000;
            let t: u64 = x >> (sh as u64);
            proof {
                lemma_u64_shr_is_div(x, sh as u64);
                lemma_pow2_pos(sh as nat);
                lemma_div_nonincreasing((m + 0x80_0000) as int, pow2(sh as nat) as int);
                lemma_div_nonincreasing(floor_mag(b), 100);
            }
            ((t / 100) % 1000) as u32
        }
    } else {
        let sh: u32 = e - 150;
        let x: u64 = (m as u64) + 0x80_0000;
        proof {
            lemma2_to64();
            if sh < 15 {
                lemma_pow2_strictly_increases(sh as nat, 15);
            }
            assert(x * pow2(sh as nat) <= 0x7f_ffff_8000u64) by (nonlinear_arith)
                requires
                    x <= 0xff_ffffu64,
                    pow2(sh as nat) <= 0x8000,
            ;
            lemma_u64_shl_is_mul(x, sh as u64);
        }
        let t: u64 = x << (sh as u64);
        let q: u64 = t / 100;
        if q > 0xffff_ffff {
            0xffff_ffffu32 % 1000
        } else {
            (q % 1000) as u32
        }
    }
}

} // verus!
