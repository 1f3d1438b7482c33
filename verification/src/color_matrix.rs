//! Exact semantics of color-matrix coefficients.
//!
//! A color matrix holds twenty IEEE-754 single-precision bit patterns, one
//! row of five per output channel. This module gives those bit patterns
//! their exact numeric meaning — every finite single-precision value is an
//! integer multiple of 2^-149, so a value is represented here as that
//! integer, i.e. the value scaled by 2^149 — and proves that the identity
//! matrix maps every color to itself.

use vstd::arithmetic::power2::lemma2_to64;
use vstd::arithmetic::power2::lemma_pow2_adds;
use vstd::arithmetic::power2::pow2;
use vstd::prelude::*;

use crate::types::Color;

verus! {

/// Bit pattern of the single-precision number one.
pub const F32_ONE_BITS: u32 = 0x3F80_0000;

/// The identity color matrix: one on the diagonal of the four channel rows,
/// zero everywhere else, zero offsets.
pub open spec fn is_identity_color_matrix(m: Seq<u32>) -> bool {
    &&& m.len() == 20
    &&& forall|i: int|
        0 <= i < 20 ==> m[i] == (if i == 0 || i == 6 || i == 12 || i == 18 {
            F32_ONE_BITS
        } else {
            0u32
        })
}

/// Sign field of a single-precision bit pattern: zero or one.
pub open spec fn f32_sign_field(bits: u32) -> int {
    bits as int / 0x8000_0000
}

/// Biased exponent field of a single-precision bit pattern: 0..=255.
pub open spec fn f32_exponent_field(bits: u32) -> int {
    (bits as int / 0x80_0000) % 0x100
}

/// Fraction field of a single-precision bit pattern: the low 23 bits.
pub open spec fn f32_fraction_field(bits: u32) -> int {
    bits as int % 0x80_0000
}

/// The exact value of a finite single-precision number, scaled by 2^149.
/// A zero or subnormal pattern (exponent field zero) stands for
/// fraction * 2^-149; a normal pattern stands for
/// (2^23 + fraction) * 2^(exponent - 127 - 23). Scaling by 2^149 makes both
/// an integer. Patterns with exponent field 255 denote no finite number and
/// are given no meaning by the laws below.
pub open spec fn f32_scaled_value(bits: u32) -> int {
    let magnitude = if f32_exponent_field(bits) == 0 {
        f32_fraction_field(bits)
    } else {
        (f32_fraction_field(bits) + 0x80_0000) * pow2((f32_exponent_field(bits) - 1) as nat)
    };
    if f32_sign_field(bits) == 1 {
        -magnitude
    } else {
        magnitude
    }
}

/// The factor 2^149 by which `f32_scaled_value` scales exact values.
pub open spec fn channel_scale() -> int {
    pow2(149) as int
}

/// Output channel `row` of applying the matrix to a color, in exact
/// arithmetic scaled by 2^149: the four channel factors weigh the input
/// channels and the fifth entry is added as an offset.
pub open spec fn color_matrix_channel(m: Seq<u32>, row: int, c: Color) -> int {
    f32_scaled_value(m[5 * row]) * c.r + f32_scaled_value(m[5 * row + 1]) * c.g
        + f32_scaled_value(m[5 * row + 2]) * c.b + f32_scaled_value(m[5 * row + 3]) * c.a
        + f32_scaled_value(m[5 * row + 4])
}

/// The matrix maps the color to itself: every output channel, scaled by
/// 2^149, equals the corresponding input channel at the same scale.
pub open spec fn color_matrix_fixes(m: Seq<u32>, c: Color) -> bool {
    &&& color_matrix_channel(m, 0, c) == channel_scale() * c.r
    &&& color_matrix_channel(m, 1, c) == channel_scale() * c.g
    &&& color_matrix_channel(m, 2, c) == channel_scale() * c.b
    &&& color_matrix_channel(m, 3, c) == channel_scale() * c.a
}

/// The bit pattern of one stands for exactly 2^149 at the channel scale.
proof fn lemma_f32_one_scaled_value()
    ensures
        f32_scaled_value(F32_ONE_BITS) == channel_scale(),
{
    assert(f32_sign_field(F32_ONE_BITS) == 0);
    assert(f32_exponent_field(F32_ONE_BITS) == 127);
    assert(f32_fraction_field(F32_ONE_BITS) == 0);
    lemma2_to64();
    lemma_pow2_adds(23, 126);
    assert((0 + 0x80_0000) * pow2(126) == pow2(23) * pow2(126));
}

/// Law: applying the identity color matrix to any input color returns the
/// same color unchanged — in exact arithmetic, each output channel equals
/// the input channel.
#[verifier::rlimit(50)]
pub proof fn lemma_identity_matrix_preserves_color(m: Seq<u32>, c: Color)
    requires
        is_identity_color_matrix(m),
    ensures
        color_matrix_fixes(m, c),
{
    lemma_f32_one_scaled_value();
    let one: int = channel_scale();
    assert(f32_scaled_value(0u32) == 0);
    assert(color_matrix_channel(m, 0, c) == one * c.r) by {
        assert(m[0] == F32_ONE_BITS && m[1] == 0u32 && m[2] == 0u32 && m[3] == 0u32 && m[4]
            == 0u32);
        assert(color_matrix_channel(m, 0, c) == one * c.r + 0 * c.g + 0 * c.b + 0 * c.a + 0);
    }
    assert(color_matrix_channel(m, 1, c) == one * c.g) by {
        assert(m[5] == 0u32 && m[6] == F32_ONE_BITS && m[7] == 0u32 && m[8] == 0u32 && m[9]
            == 0u32);
        assert(color_matrix_channel(m, 1, c) == 0 * c.r + one * c.g + 0 * c.b + 0 * c.a + 0);
    }
    assert(color_matrix_channel(m, 2, c) == one * c.b) by {
        assert(m[10] == 0u32 && m[11] == 0u32 && m[12] == F32_ONE_BITS && m[13] == 0u32 && m[14]
            == 0u32);
        assert(color_matrix_channel(m, 2, c) == 0 * c.r + 0 * c.g + one * c.b + 0 * c.a + 0);
    }
    assert(color_matrix_channel(m, 3, c) == one * c.a) by {
        assert(m[15] == 0u32 && m[16] == 0u32 && m[17] == 0u32 && m[18] == F32_ONE_BITS && m[19]
            == 0u32);
        assert(color_matrix_channel(m, 3, c) == 0 * c.r + 0 * c.g + 0 * c.b + one * c.a + 0);
    }
    assert(color_matrix_fixes(m, c));
}

} // verus!
