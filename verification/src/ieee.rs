//! Integer arithmetic on IEEE-754 single-precision bit patterns.
//!
//! A pattern has one sign bit, eight exponent bits and twenty-three
//! fraction bits. Its magnitude is `significand * 2^(exponent - 150)`,
//! where the exponent of a subnormal counts as one.

use vstd::prelude::*;
use vstd::arithmetic::power2::{pow2, lemma2_to64, lemma_pow2_pos, lemma_pow2_unfold, lemma_pow2_strictly_increases};
use vstd::arithmetic::div_mod::{lemma_div_denominator, lemma_basic_div, lemma_small_div_converse, lemma_fundamental_div_mod, lemma_mod_bound};

verus! {

/// Two to the power twenty-three: the weight of the implicit leading bit.
pub const HIDDEN_BIT: u32 = 0x0080_0000;

/// The exponent field of an infinity or a NaN.
pub const EXPONENT_SPECIAL: u32 = 255;

/// The exponent field at which the significand is already a whole number.
pub const EXPONENT_WHOLE: u32 = 150;

/// The eight exponent bits.
pub open spec fn exponent_field(bits: u32) -> nat {
    ((bits / 0x0080_0000) % 256) as nat
}

/// The twenty-three fraction bits.
pub open spec fn fraction_field(bits: u32) -> nat {
    (bits % 0x0080_0000) as nat
}

/// Whether the sign bit is set.
pub open spec fn is_negative(bits: u32) -> bool {
    bits >= 0x8000_0000
}

/// Whether the pattern is a NaN.
pub open spec fn is_nan(bits: u32) -> bool {
    exponent_field(bits) == 255 && fraction_field(bits) != 0
}

/// Whether the pattern is neither a NaN nor an infinity.
pub open spec fn is_finite(bits: u32) -> bool {
    exponent_field(bits) != 255
}

/// The significand as a whole number, with the implicit bit for normal values.
pub open spec fn significand(bits: u32) -> nat {
    if exponent_field(bits) == 0 {
        fraction_field(bits)
    } else {
        fraction_field(bits) + 0x0080_0000
    }
}

/// The exponent that scales the significand, biased by 150.
pub open spec fn scaling_exponent(bits: u32) -> nat {
    if exponent_field(bits) == 0 {
        1
    } else {
        exponent_field(bits)
    }
}

/// The whole part of `scale` times the magnitude of the pattern, computed
/// exactly. For an infinity or a NaN this is the value that the formula
/// gives for exponent 255, which exceeds every 64-bit integer when it is
/// not zero.
pub open spec fn scaled_floor(bits: u32, scale: nat) -> nat {
    let e = scaling_exponent(bits);
    let p = scale * significand(bits);
    if e >= 150 {
        p * pow2((e - 150) as nat)
    } else {
        p / pow2((150 - e) as nat)
    }
}

/// The smaller of `n` and the largest 64-bit unsigned integer.
pub open spec fn clamp_u64(n: nat) -> nat {
    if n > u64::MAX as nat {
        u64::MAX as nat
    } else {
        n
    }
}

/// Reads the exponent field.
pub fn exponent_of(bits: u32) -> (e: u32)
    ensures
        e as nat == exponent_field(bits),
        e < 256,
{
    (bits / HIDDEN_BIT) % 256
}

/// Reads the fraction field.
pub fn fraction_of(bits: u32) -> (f: u32)
    ensures
        f as nat == fraction_field(bits),
        f < 0x0080_0000,
{
    bits % HIDDEN_BIT
}

/// Reads the sign bit.
pub fn sign_of(bits: u32) -> (s: bool)
    ensures
        s == is_negative(bits),
{
    bits >= 0x8000_0000
}

/// Tests for a NaN.
pub fn nan(bits: u32) -> (r: bool)
    ensures
        r == is_nan(bits),
{
    exponent_of(bits) == EXPONENT_SPECIAL && fraction_of(bits) != 0
}

/// Tests for a value that is neither a NaN nor an infinity.
pub fn finite(bits: u32) -> (r: bool)
    ensures
        r == is_finite(bits),
{
    exponent_of(bits) != EXPONENT_SPECIAL
}

/// `p * 2^shift`, clamped to 64 bits.
fn shift_up(p: u64, shift: u32) -> (r: u64)
    ensures
        r as nat == clamp_u64(p as nat * pow2(shift as nat)),
{
    if p == 0 {
        proof {
            assert(0 * pow2(shift as nat) == 0) by (nonlinear_arith);
        }
        return 0;
    }
    let mut v: u64 = p;
    let mut k: u32 = 0;
    proof {
        lemma2_to64();
    }
    while k < shift && v <= u64::MAX / 2
        invariant
            k <= shift,
            p > 0,
            v as nat == p as nat * pow2(k as nat),
        decreases shift - k,
    {
        proof {
            lemma_pow2_unfold((k + 1) as nat);
            let w = pow2(k as nat);
            assert(p as nat * (2 * w) == 2 * (p as nat * w)) by (nonlinear_arith);
        }
        v = v * 2;
        k = k + 1;
    }
    if k < shift {
        proof {
            lemma_pow2_unfold((k + 1) as nat);
            if k + 1 < shift {
                lemma_pow2_strictly_increases((k + 1) as nat, shift as nat);
            }
            let w = pow2(k as nat);
            let a = pow2((k + 1) as nat);
            let b = pow2(shift as nat);
            assert(p as nat * (2 * w) == 2 * (p as nat * w)) by (nonlinear_arith);
            assert(p as nat * a <= p as nat * b) by (nonlinear_arith)
                requires
                    a <= b,
            ;
        }
        u64::MAX
    } else {
        v
    }
}

/// `p / 2^shift`, rounded down.
fn shift_down(p: u64, shift: u32) -> (r: u64)
    ensures
        r as nat == p as nat / pow2(shift as nat),
{
    let mut v: u64 = p;
    let mut k: u32 = 0;
    proof {
        lemma2_to64();
    }
    while k < shift && v > 0
        invariant
            k <= shift,
            v as nat == p as nat / pow2(k as nat),
        decreases shift - k,
    {
        proof {
            lemma_pow2_unfold((k + 1) as nat);
            lemma_pow2_pos(k as nat);
            lemma_div_denominator(p as int, pow2(k as nat) as int, 2);
            assert(pow2(k as nat) * 2 == 2 * pow2(k as nat)) by (nonlinear_arith);
        }
        v = v / 2;
        k = k + 1;
    }
    proof {
        if k < shift {
            lemma_pow2_pos(k as nat);
            lemma_small_div_converse(p as int, pow2(k as nat) as int);
            lemma_pow2_strictly_increases(k as nat, shift as nat);
            lemma_basic_div(p as int, pow2(shift as nat) as int);
        }
    }
    v
}

/// The whole part of `scale` times the magnitude of `bits`, clamped to 64
/// bits. Infinities and NaNs go by the same formula as finite values.
pub fn scaled_floor_saturating(bits: u32, scale: u32) -> (r: u64)
    ensures
        r as nat == clamp_u64(scaled_floor(bits, scale as nat)),
{
    let raw: u32 = exponent_of(bits);
    let frac: u32 = fraction_of(bits);
    let sig: u64 = if raw == 0 {
        frac as u64
    } else {
        frac as u64 + 0x0080_0000
    };
    let e: u32 = if raw == 0 {
        1
    } else {
        raw
    };
    assert((scale as u64) * sig <= 0xFFFF_FFFF * 0x00FF_FFFF) by (nonlinear_arith)
        requires
            scale <= 0xFFFF_FFFF,
            sig <= 0x00FF_FFFF,
    ;
    let p: u64 = (scale as u64) * sig;
    if e >= EXPONENT_WHOLE {
        shift_up(p, e - EXPONENT_WHOLE)
    } else {
        shift_down(p, EXPONENT_WHOLE - e)
    }
}

/// Nothing is rounded: below the exponent at which the significand is
/// whole, `scaled_floor` is the one whole number `q` with
/// `q * 2^k <= scale * significand < (q + 1) * 2^k`, where `k` is the
/// number of binary places behind the point.
pub proof fn law_scaled_floor_cuts_off(bits: u32, scale: nat)
    requires
        scaling_exponent(bits) < 150,
    ensures
        ({
            let k = (150 - scaling_exponent(bits)) as nat;
            let q = scaled_floor(bits, scale);
            &&& q * pow2(k) <= scale * significand(bits)
            &&& scale * significand(bits) < (q + 1) * pow2(k)
        }),
{
    let k = (150 - scaling_exponent(bits)) as nat;
    let d = pow2(k) as int;
    let p = (scale * significand(bits)) as int;
    lemma_pow2_pos(k);
    lemma_fundamental_div_mod(p, d);
    lemma_mod_bound(p, d);
    let q = p / d;
    assert(q * d == d * q) by (nonlinear_arith);
    assert((q + 1) * d == q * d + d) by (nonlinear_arith);
}

} // verus!
