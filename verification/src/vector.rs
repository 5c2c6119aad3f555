//! Three-component vectors of single-precision numbers.
//!
//! A component is held as its IEEE 754 binary32 bit pattern, so that rows can
//! be stored, copied and compared exactly. The arithmetic on components is
//! supplied by the caller; this module fixes the patterns that the rules of
//! the simulation name and decides the one question that can be settled on
//! patterns alone: whether a magnitude lies in the accepted range.

use vstd::prelude::*;
use vstd::arithmetic::power2::pow2;
use vstd::arithmetic::power2::lemma2_to64;
use vstd::arithmetic::power2::lemma_pow2_pos;
use vstd::arithmetic::power2::lemma_pow2_strictly_increases;
use vstd::arithmetic::power2::lemma_pow2_unfold;

verus! {

/// The pattern of positive zero.
pub const ZERO: u32 = 0x0000_0000;

/// The pattern of 0.5, the factor by which a pending direction is scaled in
/// one tick.
pub const HALF: u32 = 0x3F00_0000;

/// The pattern of 1.0.
pub const ONE: u32 = 0x3F80_0000;

/// The pattern of -1.0.
pub const MINUS_ONE: u32 = 0xBF80_0000;

/// The pattern of the single-precision number nearest to 0.01, the smallest
/// accepted magnitude.
pub const MIN_MAGNITUDE: u32 = 0x3C23_D70A;

/// The pattern of the single-precision number nearest to 1.1, the largest
/// accepted magnitude.
pub const MAX_MAGNITUDE: u32 = 0x3F8C_CCCD;

/// The pattern of positive infinity: every finite non-negative number has a
/// smaller pattern, every NaN with a clear sign bit a larger one.
pub const INFINITY: u32 = 0x7F80_0000;

/// A vector of three single-precision numbers, each as its bit pattern.
#[derive(Clone, Copy, Debug, PartialEq, Eq, Structural)]
pub struct Vector3 {
    pub x: u32,
    pub y: u32,
    pub z: u32,
}

/// The vector whose components are all positive zero.
pub open spec fn zero_vector() -> Vector3 {
    Vector3 { x: ZERO, y: ZERO, z: ZERO }
}

/// The sign bit of a pattern is clear and the pattern encodes a finite number.
pub open spec fn is_finite_non_negative(bits: u32) -> bool {
    bits < INFINITY
}

/// The number that a finite non-negative pattern encodes, as a multiple of
/// 2^-149 (the smallest positive single-precision number). With an exponent
/// field of 0 the pattern is subnormal and encodes its fraction field; with
/// an exponent field `e > 0` it encodes `(2^23 + fraction) * 2^(e - 1)`.
pub open spec fn scaled_value(bits: u32) -> nat
    recommends
        is_finite_non_negative(bits),
{
    let exponent = (bits / 0x80_0000) as nat;
    let fraction = (bits % 0x80_0000) as nat;
    if exponent == 0 {
        fraction
    } else {
        (0x80_0000 + fraction) * pow2((exponent - 1) as nat)
    }
}

/// A magnitude is accepted when it is a number between 0.01 and 1.1, both
/// ends included. Negative numbers, infinities and NaNs are not.
pub open spec fn magnitude_in_range(magnitude: u32) -> bool {
    MIN_MAGNITUDE <= magnitude <= MAX_MAGNITUDE
}

impl Vector3 {
    /// The zero vector.
    pub fn zero() -> (v: Vector3)
        ensures
            v == zero_vector(),
    {
        Vector3 { x: ZERO, y: ZERO, z: ZERO }
    }
}

/// Decides whether a magnitude, given as its bit pattern, is accepted.
pub fn magnitude_accepted(magnitude: u32) -> (r: bool)
    ensures
        r == magnitude_in_range(magnitude),
{
    MIN_MAGNITUDE <= magnitude && magnitude <= MAX_MAGNITUDE
}

/// A finite non-negative number is less than twice the power of two that
/// its exponent field names.
proof fn lemma_value_below_next_power(bits: u32)
    requires
        is_finite_non_negative(bits),
    ensures
        scaled_value(bits) < 0x80_0000 * pow2((bits / 0x80_0000) as nat),
{
    let exponent = (bits / 0x80_0000) as nat;
    let fraction = (bits % 0x80_0000) as nat;
    if exponent == 0 {
        lemma2_to64();
    } else {
        let below = pow2((exponent - 1) as nat);
        lemma_pow2_unfold(exponent);
        lemma_pow2_pos((exponent - 1) as nat);
        assert((0x80_0000 + fraction) * below < 0x80_0000 * (2 * below)) by (nonlinear_arith)
            requires
                fraction < 0x80_0000,
                below > 0,
        ;
    }
}

/// Of two finite non-negative patterns, the smaller one encodes the smaller
/// number.
proof fn lemma_smaller_pattern_smaller_number(a: u32, b: u32)
    requires
        a < b,
        is_finite_non_negative(b),
    ensures
        scaled_value(a) < scaled_value(b),
{
    let ea = (a / 0x80_0000) as nat;
    let fa = (a % 0x80_0000) as nat;
    let eb = (b / 0x80_0000) as nat;
    let fb = (b % 0x80_0000) as nat;
    if ea == eb {
        if ea != 0 {
            let p = pow2((ea - 1) as nat);
            lemma_pow2_pos((ea - 1) as nat);
            assert((0x80_0000 + fa) * p < (0x80_0000 + fb) * p) by (nonlinear_arith)
                requires
                    fa < fb,
                    p > 0,
            ;
        }
    } else {
        assert(ea < eb);
        lemma_value_below_next_power(a);
        let p = pow2((eb - 1) as nat);
        if ea < eb - 1 {
            lemma_pow2_strictly_increases(ea, (eb - 1) as nat);
        }
        assert(pow2(ea) <= p);
        assert(0x80_0000 * pow2(ea) <= (0x80_0000 + fb) * p) by (nonlinear_arith)
            requires
                pow2(ea) <= p,
        ;
    }
}

/// Among finite non-negative patterns, the order of the patterns is the
/// order of the numbers that they encode.
pub proof fn lemma_pattern_order(a: u32, b: u32)
    requires
        is_finite_non_negative(a),
        is_finite_non_negative(b),
    ensures
        a < b <==> scaled_value(a) < scaled_value(b),
        a == b <==> scaled_value(a) == scaled_value(b),
{
    if a < b {
        lemma_smaller_pattern_smaller_number(a, b);
    }
    if b < a {
        lemma_smaller_pattern_smaller_number(b, a);
    }
}

/// The range test on patterns is the range test on numbers: a magnitude is
/// accepted exactly when it is finite and not negative, at least the
/// single-precision 0.01 and at most the single-precision 1.1.
pub proof fn lemma_range_is_numeric(magnitude: u32)
    ensures
        magnitude_in_range(magnitude) <==> {
            &&& is_finite_non_negative(magnitude)
            &&& scaled_value(MIN_MAGNITUDE) <= scaled_value(magnitude)
            &&& scaled_value(magnitude) <= scaled_value(MAX_MAGNITUDE)
        },
{
    if is_finite_non_negative(magnitude) {
        lemma_pattern_order(MIN_MAGNITUDE, magnitude);
        lemma_pattern_order(magnitude, MAX_MAGNITUDE);
    }
}

} // verus!
