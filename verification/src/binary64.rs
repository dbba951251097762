//! Double-precision numbers by their IEEE 754 binary64 encoding.
//!
//! A coordinate or coefficient is held as the 64 bits of its encoding: one
//! sign bit, eleven exponent bits, fifty-two fraction bits. This module says
//! what such an encoding stands for and decides, on the bits alone, the two
//! questions the simulation asks of a number: is it finite, and is its
//! magnitude above one million.

use vstd::arithmetic::power2::{lemma2_to64, lemma2_to64_rest, lemma_pow2_pos, lemma_pow2_strictly_increases, pow2};
use vstd::prelude::*;

verus! {

/// Two to the power 52: the weight of the lowest exponent bit.
pub const FRACTION_SPAN: u64 = 0x10_0000_0000_0000;

/// Two to the power 63: the weight of the sign bit.
pub const SIGN_WEIGHT: u64 = 0x8000_0000_0000_0000;

/// The number of values of the exponent field.
pub const EXPONENT_SPAN: u64 = 0x800;

/// The exponent field that marks an infinity or a NaN.
pub const EXPONENT_SPECIAL: u64 = 0x7FF;

/// The encoding of positive zero.
pub const ZERO: u64 = 0;

/// The encoding of one.
pub const ONE: u64 = 0x3FF0_0000_0000_0000;

/// The encoding of one million.
pub const MILLION: u64 = 0x412E_8480_0000_0000;

/// The eleven exponent bits of an encoding.
pub open spec fn exponent_field(bits: u64) -> nat {
    ((bits / FRACTION_SPAN) % EXPONENT_SPAN) as nat
}

/// The fifty-two fraction bits of an encoding.
pub open spec fn fraction_field(bits: u64) -> nat {
    (bits % FRACTION_SPAN) as nat
}

/// Whether the encoding stands for a number, not for an infinity or a NaN.
pub open spec fn is_finite(bits: u64) -> bool {
    exponent_field(bits) < EXPONENT_SPECIAL
}

/// The integer significand of a finite encoding: the fraction bits, with the
/// implicit leading bit for a normal number.
pub open spec fn significand(bits: u64) -> nat {
    if exponent_field(bits) == 0 {
        fraction_field(bits)
    } else {
        (FRACTION_SPAN + fraction_field(bits)) as nat
    }
}

/// The power of two by which the significand of a finite encoding is scaled:
/// the magnitude encoded is `significand * 2^scale`.
pub open spec fn scale(bits: u64) -> int {
    if exponent_field(bits) == 0 {
        -1074
    } else {
        exponent_field(bits) - 1075
    }
}

/// Whether the magnitude of the number that a finite encoding stands for is
/// strictly greater than the integer `limit`.
pub open spec fn magnitude_exceeds(bits: u64, limit: nat) -> bool {
    if scale(bits) >= 0 {
        significand(bits) * pow2(scale(bits) as nat) > limit
    } else {
        significand(bits) > limit * pow2((-scale(bits)) as nat)
    }
}

/// Decides whether an encoding stands for a finite number.
pub fn finite(bits: u64) -> (r: bool)
    ensures
        r == is_finite(bits),
{
    (bits / FRACTION_SPAN) % EXPONENT_SPAN != EXPONENT_SPECIAL
}

/// Decides whether a number is beyond one million in magnitude. An infinity
/// and a NaN count as beyond.
///
/// With the sign bit cleared, the encodings of the finite numbers are ordered
/// as the magnitudes they stand for, so one comparison of integers decides.
pub fn beyond_million(bits: u64) -> (r: bool)
    ensures
        r == (!is_finite(bits) || magnitude_exceeds(bits, 1_000_000)),
{
    let cleared: u64 = bits % SIGN_WEIGHT;
    proof {
        lemma_million_threshold(bits);
    }
    cleared > MILLION
}

/// The comparison of encodings that `beyond_million` makes agrees with the
/// comparison of the magnitudes that they stand for.
pub proof fn lemma_million_threshold(bits: u64)
    ensures
        (bits % SIGN_WEIGHT > MILLION) == (!is_finite(bits) || magnitude_exceeds(bits, 1_000_000)),
{
    let cleared = bits % SIGN_WEIGHT;
    let e = exponent_field(bits);
    let f = fraction_field(bits);
    assert(cleared == e * FRACTION_SPAN + f);
    assert(f < FRACTION_SPAN);
    assert(e <= EXPONENT_SPECIAL);
    lemma2_to64();
    lemma2_to64_rest();
    if e == EXPONENT_SPECIAL {
    } else if e == 0 {
        lemma_pow2_strictly_increases(52, 1074);
        assert(1_000_000 * pow2(1074) >= pow2(1074)) by (nonlinear_arith);
    } else if e < 1042 {
        let d = (1075 - e) as nat;
        if d > 34 {
            lemma_pow2_strictly_increases(34, d);
        }
        assert(1_000_000 * pow2(d) >= 1_000_000 * pow2(34)) by (nonlinear_arith)
            requires
                pow2(d) >= pow2(34),
        ;
    } else if e == 1042 {
    } else if e < 1075 {
        let d = (1075 - e) as nat;
        if d < 32 {
            lemma_pow2_strictly_increases(d, 32);
        }
        assert(1_000_000 * pow2(d) <= 1_000_000 * pow2(32)) by (nonlinear_arith)
            requires
                pow2(d) <= pow2(32),
        ;
    } else {
        let k = (e - 1075) as nat;
        lemma_pow2_pos(k);
        assert(significand(bits) * pow2(k) >= significand(bits)) by (nonlinear_arith)
            requires
                pow2(k) >= 1,
        ;
    }
}

} // verus!
