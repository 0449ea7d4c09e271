//! Colour channels as IEEE-754 single-precision numbers, in integer arithmetic.
//!
//! A channel byte `c` stands for the fraction `c / 255`. The GPU reads it as
//! a 32-bit binary floating-point number, which this module builds bit by
//! bit: sign, biased exponent and the 23 stored bits of the significand.

use vstd::prelude::*;
use vstd::arithmetic::power2::{lemma2_to64, lemma_pow2_unfold, pow2};

verus! {

/// Two to the power of 23: the weight of the significand's leading bit.
pub const HIDDEN_BIT: u32 = 0x80_0000;

/// The bit pattern of 1.0.
pub const ONE: u32 = 0x3F80_0000;

/// The power of two that brings `channel / 255` into the interval [1, 2).
pub open spec fn unit_scale(channel: u8) -> int
    recommends
        channel > 0,
{
    if channel == 255 {
        1
    } else if channel >= 128 {
        2
    } else if channel >= 64 {
        4
    } else if channel >= 32 {
        8
    } else if channel >= 16 {
        16
    } else if channel >= 8 {
        32
    } else if channel >= 4 {
        64
    } else if channel >= 2 {
        128
    } else {
        256
    }
}

/// The biased exponent of `channel / 255`: 127 less the number of doublings
/// that `unit_scale` stands for.
pub open spec fn unit_exponent(channel: u8) -> int
    recommends
        channel > 0,
{
    if channel == 255 {
        127
    } else if channel >= 128 {
        126
    } else if channel >= 64 {
        125
    } else if channel >= 32 {
        124
    } else if channel >= 16 {
        123
    } else if channel >= 8 {
        122
    } else if channel >= 4 {
        121
    } else if channel >= 2 {
        120
    } else {
        119
    }
}

/// The 24-bit significand of `channel / 255`: the integer nearest to
/// `channel * unit_scale * 2^23 / 255`. No tie arises, 255 being odd.
pub open spec fn unit_significand(channel: u8) -> int
    recommends
        channel > 0,
{
    (2 * (channel * unit_scale(channel) * 0x80_0000) + 255) / 510
}

/// The bit pattern of the single-precision number nearest to `channel / 255`.
pub open spec fn unit_bits(channel: u8) -> u32 {
    if channel == 0 {
        0
    } else {
        (unit_exponent(channel) * 0x80_0000 + (unit_significand(channel) - 0x80_0000)) as u32
    }
}

/// The biased exponent that a bit pattern holds.
pub open spec fn exponent_field(bits: u32) -> int {
    bits as int / 0x80_0000 % 256
}

/// The 23 stored significand bits that a bit pattern holds.
pub open spec fn fraction_field(bits: u32) -> int {
    bits as int % 0x80_0000
}

/// Holds when the sign bit of a pattern is clear.
pub open spec fn is_positive(bits: u32) -> bool {
    bits < 0x8000_0000
}

/// Holds of a positive normal pattern whose value `(2^23 + fraction) *
/// 2^(exponent - 150)` lies closer than half a unit in the last place to
/// `numerator / denominator`. Stated for values up to 2, where the exponent
/// is at most 127 and the power of two divides.
pub open spec fn is_nearest_single(bits: u32, numerator: int, denominator: int) -> bool {
    let exponent = exponent_field(bits);
    let significand = 0x80_0000 + fraction_field(bits);
    let unit = pow2((150 - exponent) as nat) as int;
    &&& is_positive(bits)
    &&& 1 <= exponent <= 127
    &&& -denominator < 2 * (denominator * significand - numerator * unit) < denominator
}

/// The scale and the exponent describe the same power of two, and the scaled
/// fraction lies in [1, 2).
pub proof fn lemma_unit_scale(channel: u8)
    requires
        channel > 0,
    ensures
        unit_scale(channel) == pow2((127 - unit_exponent(channel)) as nat),
        255 <= channel * unit_scale(channel) < 510,
        119 <= unit_exponent(channel) <= 127,
{
    lemma2_to64();
}

/// The significand has its leading bit set and fits in 24 bits, so that the
/// exponent and the stored bits of `unit_bits` do not overlap.
pub proof fn lemma_unit_fields(channel: u8)
    requires
        channel > 0,
    ensures
        0x80_0000 <= unit_significand(channel) < 0x100_0000,
        exponent_field(unit_bits(channel)) == unit_exponent(channel),
        fraction_field(unit_bits(channel)) == unit_significand(channel) - 0x80_0000,
        is_positive(unit_bits(channel)),
{
    lemma_unit_scale(channel);
    let scaled = channel * unit_scale(channel);
    assert(255 <= scaled < 510);
    let significand = unit_significand(channel);
    assert(significand == (2 * (scaled * 0x80_0000) + 255) / 510);
}

/// Zero stays zero, full intensity is exactly one, and every other channel
/// value becomes the single-precision number nearest to its fraction of 255.
pub proof fn lemma_unit_bits_nearest(channel: u8)
    ensures
        channel == 0 ==> unit_bits(channel) == 0,
        channel == 255 ==> unit_bits(channel) == ONE,
        channel > 0 ==> is_nearest_single(unit_bits(channel), channel as int, 255),
{
    if channel > 0 {
        lemma_unit_scale(channel);
        lemma_unit_fields(channel);
        let bits = unit_bits(channel);
        let exponent = unit_exponent(channel);
        let scale = unit_scale(channel);
        lemma_pow2_shift(exponent);
        let unit = pow2((150 - exponent) as nat) as int;
        assert(unit == scale * 0x80_0000);
        let scaled = channel * scale;
        assert(channel * unit == scaled * 0x80_0000) by (nonlinear_arith)
            requires
                unit == scale * 0x80_0000,
                scaled == channel * scale,
        ;
    }
}

/// `2^(150 - e)` is `2^(127 - e)` times `2^23`.
proof fn lemma_pow2_shift(exponent: int)
    requires
        119 <= exponent <= 127,
    ensures
        pow2((150 - exponent) as nat) == pow2((127 - exponent) as nat) * 0x80_0000,
{
    lemma2_to64();
}

/// A fraction that was doubled into [255, 510) was doubled as often as
/// `unit_scale` says.
proof fn lemma_normalised(channel: u8, scale: int, exponent: int)
    requires
        channel > 0,
        119 <= exponent <= 127,
        scale == pow2((127 - exponent) as nat),
        255 <= channel * scale,
        exponent < 127 ==> channel * scale < 510,
    ensures
        scale == unit_scale(channel),
        exponent == unit_exponent(channel),
{
    lemma2_to64();
    let c = channel as int;
    if exponent == 127 {
        assert(c * scale == c) by (nonlinear_arith)
            requires
                scale == 1,
        ;
    } else if exponent == 126 {
        assert(c * scale == 2 * c) by (nonlinear_arith)
            requires
                scale == 2,
        ;
    } else if exponent == 125 {
        assert(c * scale == 4 * c) by (nonlinear_arith)
            requires
                scale == 4,
        ;
    } else if exponent == 124 {
        assert(c * scale == 8 * c) by (nonlinear_arith)
            requires
                scale == 8,
        ;
    } else if exponent == 123 {
        assert(c * scale == 16 * c) by (nonlinear_arith)
            requires
                scale == 16,
        ;
    } else if exponent == 122 {
        assert(c * scale == 32 * c) by (nonlinear_arith)
            requires
                scale == 32,
        ;
    } else if exponent == 121 {
        assert(c * scale == 64 * c) by (nonlinear_arith)
            requires
                scale == 64,
        ;
    } else if exponent == 120 {
        assert(c * scale == 128 * c) by (nonlinear_arith)
            requires
                scale == 128,
        ;
    } else {
        assert(c * scale == 256 * c) by (nonlinear_arith)
            requires
                scale == 256,
        ;
    }
}

/// Computes the bit pattern of the single-precision number nearest to
/// `channel / 255` by doubling the fraction until it reaches [1, 2) and
/// rounding the quotient to 24 bits.
pub fn unit_single(channel: u8) -> (bits: u32)
    ensures
        bits == unit_bits(channel),
{
    if channel == 0 {
        return 0;
    }
    let mut scaled: u64 = channel as u64;
    let mut exponent: u32 = 127;
    let ghost mut scale: int = 1;
    proof {
        lemma2_to64();
    }
    while scaled < 255
        invariant
            channel > 0,
            scaled == channel * scale,
            scale == pow2((127 - exponent) as nat),
            119 <= exponent <= 127,
            scaled < 510,
        decreases exponent,
    {
        proof {
            lemma2_to64();
            assert(exponent > 119) by {
                if exponent == 119 {
                    assert(channel * scale >= 256) by (nonlinear_arith)
                        requires
                            scale == 256,
                            channel >= 1,
                    ;
                }
            }
            lemma_pow2_unfold((127 - exponent + 1) as nat);
            assert(channel * (2 * scale) == 2 * (channel * scale)) by (nonlinear_arith);
            scale = 2 * scale;
        }
        scaled = 2 * scaled;
        exponent = exponent - 1;
    }
    proof {
        lemma_normalised(channel, scale, exponent as int);
        lemma_unit_fields(channel);
    }
    let significand: u64 = (2 * (scaled * 0x80_0000) + 255) / 510;
    let stored: u32 = (significand - 0x80_0000) as u32;
    exponent * HIDDEN_BIT + stored
}

} // verus!
