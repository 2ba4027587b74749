//! IEEE 754 binary64 values carried as `u64` bit patterns.
//!
//! The comparison relation and negation are pure bit-level functions and are
//! implemented and verified here.  Rounding arithmetic (add, sub, mul, div)
//! and the conversions between integers and floats are delegated to the
//! `rustc_apfloat` software implementation of IEEE 754 behind trusted
//! wrappers; their results are given names that the evaluator's contracts
//! speak of.

use rustc_apfloat::Float;
use vstd::prelude::*;

verus! {

/// The sign bit of a binary64 value.
pub const F64_SIGN_BIT: u64 = 0x8000_0000_0000_0000;

/// The exponent mask of a binary64 value: all-ones exponent with a zero
/// significand encodes an infinity, with a non-zero significand a NaN.
pub const F64_EXP_MASK: u64 = 0x7ff0_0000_0000_0000;

/// Whether the bit pattern encodes a NaN: all-ones exponent and a non-zero
/// significand.
pub open spec fn fp_is_nan(bits: u64) -> bool {
    (if bits >= F64_SIGN_BIT {
        (bits - F64_SIGN_BIT) as u64
    } else {
        bits
    }) > F64_EXP_MASK
}

/// An order-preserving integer key for non-NaN bit patterns: non-negative
/// values keep their magnitude, negative values map below all non-negative
/// ones, and the two zeros share the key 0.
pub open spec fn fp_key(bits: u64) -> int {
    if bits >= F64_SIGN_BIT {
        -((bits - F64_SIGN_BIT) as int)
    } else {
        bits as int
    }
}

/// The IEEE 754 partial ordering of two binary64 bit patterns, encoded as
/// `Some(-1)`, `Some(0)`, `Some(1)`, or `None` when either operand is NaN.
pub open spec fn fp_cmp(a: u64, b: u64) -> Option<i8> {
    if fp_is_nan(a) || fp_is_nan(b) {
        None
    } else if fp_key(a) < fp_key(b) {
        Some(-1i8)
    } else if fp_key(a) == fp_key(b) {
        Some(0i8)
    } else {
        Some(1i8)
    }
}

/// IEEE equality of two binary64 bit patterns.
pub open spec fn fp_eq(a: u64, b: u64) -> bool {
    fp_cmp(a, b) == Some(0i8)
}

/// The negation of a binary64 value: the sign bit is flipped, for every
/// operand class including zeros, infinities and NaNs.
pub open spec fn fp_neg(bits: u64) -> u64 {
    if bits >= F64_SIGN_BIT {
        (bits - F64_SIGN_BIT) as u64
    } else {
        (bits + F64_SIGN_BIT) as u64
    }
}

/// Exec test for NaN, proved against `fp_is_nan`.
pub fn float_is_nan_bits(bits: u64) -> (r: bool)
    ensures
        r == fp_is_nan(bits),
{
    let magnitude: u64 = if bits >= F64_SIGN_BIT {
        bits - F64_SIGN_BIT
    } else {
        bits
    };
    magnitude > F64_EXP_MASK
}

/// Exec IEEE comparison, proved against `fp_cmp`.
pub fn float_cmp_bits(a: u64, b: u64) -> (r: Option<i8>)
    ensures
        r == fp_cmp(a, b),
{
    if float_is_nan_bits(a) || float_is_nan_bits(b) {
        None
    } else {
        let ka_neg: bool = a >= F64_SIGN_BIT;
        let kb_neg: bool = b >= F64_SIGN_BIT;
        let ka: u64 = if ka_neg {
            a - F64_SIGN_BIT
        } else {
            a
        };
        let kb: u64 = if kb_neg {
            b - F64_SIGN_BIT
        } else {
            b
        };
        if ka_neg && kb_neg {
            if ka > kb {
                Some(-1)
            } else if ka == kb {
                Some(0)
            } else {
                Some(1)
            }
        } else if ka_neg {
            if ka == 0 && kb == 0 {
                Some(0)
            } else {
                Some(-1)
            }
        } else if kb_neg {
            if ka == 0 && kb == 0 {
                Some(0)
            } else {
                Some(1)
            }
        } else {
            if ka < kb {
                Some(-1)
            } else if ka == kb {
                Some(0)
            } else {
                Some(1)
            }
        }
    }
}

/// Exec negation, proved against `fp_neg`.
pub fn float_neg_bits(bits: u64) -> (r: u64)
    ensures
        r == fp_neg(bits),
{
    if bits >= F64_SIGN_BIT {
        bits - F64_SIGN_BIT
    } else {
        bits + F64_SIGN_BIT
    }
}

/// The binary64 sum of two bit patterns, rounded to nearest, ties to even.
pub uninterp spec fn fp_add(a: u64, b: u64) -> u64;

/// The binary64 difference of two bit patterns, rounded to nearest, ties to
/// even.
pub uninterp spec fn fp_sub(a: u64, b: u64) -> u64;

/// The binary64 product of two bit patterns, rounded to nearest, ties to
/// even.
pub uninterp spec fn fp_mul(a: u64, b: u64) -> u64;

/// The binary64 quotient of two bit patterns, rounded to nearest, ties to
/// even.
pub uninterp spec fn fp_div(a: u64, b: u64) -> u64;

/// The binary64 value nearest to the given integer, ties to even.
pub uninterp spec fn fp_of_int(i: i64) -> u64;

/// The integer obtained by truncating the binary64 value toward zero,
/// saturating at the 64-bit signed bounds.
pub uninterp spec fn fp_to_int(bits: u64) -> i64;

/// Relies on `rustc_apfloat::ieee::Double`'s `Add`: IEEE 754 binary64
/// addition with default round-to-nearest-even.
#[verifier::external_body]
pub fn float_add_bits(a: u64, b: u64) -> (r: u64)
    ensures
        r == fp_add(a, b),
{
    let x = rustc_apfloat::ieee::Double::from_bits(a as u128);
    let y = rustc_apfloat::ieee::Double::from_bits(b as u128);
    (x + y).value.to_bits() as u64
}

/// Relies on `rustc_apfloat::ieee::Double`'s `Sub`: IEEE 754 binary64
/// subtraction with default round-to-nearest-even.
#[verifier::external_body]
pub fn float_sub_bits(a: u64, b: u64) -> (r: u64)
    ensures
        r == fp_sub(a, b),
{
    let x = rustc_apfloat::ieee::Double::from_bits(a as u128);
    let y = rustc_apfloat::ieee::Double::from_bits(b as u128);
    (x - y).value.to_bits() as u64
}

/// Relies on `rustc_apfloat::ieee::Double`'s `Mul`: IEEE 754 binary64
/// multiplication with default round-to-nearest-even.
#[verifier::external_body]
pub fn float_mul_bits(a: u64, b: u64) -> (r: u64)
    ensures
        r == fp_mul(a, b),
{
    let x = rustc_apfloat::ieee::Double::from_bits(a as u128);
    let y = rustc_apfloat::ieee::Double::from_bits(b as u128);
    (x * y).value.to_bits() as u64
}

/// Relies on `rustc_apfloat::ieee::Double`'s `Div`: IEEE 754 binary64
/// division with default round-to-nearest-even.
#[verifier::external_body]
pub fn float_div_bits(a: u64, b: u64) -> (r: u64)
    ensures
        r == fp_div(a, b),
{
    let x = rustc_apfloat::ieee::Double::from_bits(a as u128);
    let y = rustc_apfloat::ieee::Double::from_bits(b as u128);
    (x / y).value.to_bits() as u64
}

/// Relies on `rustc_apfloat::Float::from_i128`: conversion of a signed
/// integer to the nearest binary64 value.
#[verifier::external_body]
pub fn float_of_int(i: i64) -> (r: u64)
    ensures
        r == fp_of_int(i),
{
    rustc_apfloat::ieee::Double::from_i128(i as i128).value.to_bits() as u64
}

/// Relies on `rustc_apfloat::Float::to_i128`: conversion of a binary64 value
/// to a 64-bit signed integer, truncating toward zero and saturating.
#[verifier::external_body]
pub fn float_to_int(bits: u64) -> (r: i64)
    ensures
        r == fp_to_int(bits),
{
    let x = rustc_apfloat::ieee::Double::from_bits(bits as u128);
    x.to_i128(64).value as i64
}

} // verus!
