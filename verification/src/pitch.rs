//! The camera's pitch and the interval it is kept in.
//!
//! Looking straight up or down would flip the view, so the pitch never leaves
//! the interval from minus one and a half to plus one and a half radians. The
//! angle is a binary32 number, held by its bit pattern.

use vstd::prelude::*;
use vstd::arithmetic::power2::{lemma2_to64, lemma_pow2_adds, pow2};
use crate::binary32::{
    ZERO,
    clamp,
    clamped,
    is_nan,
    is_negative,
    le,
    magnitude,
    scaled_value,
    lemma_signed_magnitude_orders,
};

verus! {

/// One and a half radians: sign 0, exponent field 127, mantissa 2^22.
pub const MAX_PITCH: u32 = 0x3fc0_0000;

/// Minus one and a half radians.
pub const MIN_PITCH: u32 = 0xbfc0_0000;

/// A pitch that the camera may have: a number within the interval, or a NaN
/// that the arithmetic before the clamp produced.
pub open spec fn pitch_allowed(pitch: u32) -> bool {
    is_nan(pitch) || (le(MIN_PITCH, pitch) && le(pitch, MAX_PITCH))
}

/// The limits stand for plus and minus 3 * 2^148 units of 2^-149, which is
/// one and a half.
pub proof fn lemma_pitch_limits()
    ensures
        scaled_value(MAX_PITCH) == 3 * pow2(148),
        scaled_value(MIN_PITCH) == -3 * pow2(148),
        le(MIN_PITCH, MAX_PITCH),
{
    lemma2_to64();
    lemma_pow2_adds(22, 126);
    assert(0x3fc0_0000u32 / 0x0080_0000u32 == 127);
    assert(0x3fc0_0000u32 % 0x0080_0000u32 == 0x40_0000);
    assert((0x80_0000 + 0x40_0000) * pow2(126) == 3 * (pow2(22) * pow2(126))) by (nonlinear_arith)
        requires
            pow2(22) == 0x40_0000,
    ;
}

/// A pitch of the camera. Every value of this type is an allowed pitch.
#[derive(Clone, Copy, Debug)]
pub struct Pitch {
    bits: u32,
}

impl View for Pitch {
    type V = u32;

    /// The angle, as a binary32 pattern.
    closed spec fn view(&self) -> u32 {
        self.bits
    }
}

impl Pitch {
    #[verifier::type_invariant]
    spec fn allowed(self) -> bool {
        pitch_allowed(self.bits)
    }

    /// The pitch of a camera that looks level: positive zero.
    pub fn level() -> (pitch: Pitch)
        ensures
            pitch@ == ZERO,
    {
        proof {
            lemma_pitch_limits();
        }
        Pitch { bits: ZERO }
    }

    /// Brings a freshly computed angle back into the interval.
    pub fn clamped(raw: u32) -> (pitch: Pitch)
        ensures
            pitch@ == clamped(raw, MIN_PITCH, MAX_PITCH),
    {
        proof {
            lemma_pitch_limits();
        }
        Pitch { bits: clamp(raw, MIN_PITCH, MAX_PITCH) }
    }

    /// The angle, as a binary32 pattern.
    pub fn bits(&self) -> (bits: u32)
        ensures
            bits == self@,
            pitch_allowed(bits),
    {
        proof {
            use_type_invariant(self);
        }
        self.bits
    }
}

/// The clamp read off the bit pattern: a NaN and a number of magnitude up to
/// the limit stay, anything larger becomes the limit of its own sign.
pub proof fn lemma_clamped_pitch_by_pattern(raw: u32)
    ensures
        clamped(raw, MIN_PITCH, MAX_PITCH) == if is_nan(raw) || magnitude(raw) <= MAX_PITCH {
            raw
        } else if is_negative(raw) {
            MIN_PITCH
        } else {
            MAX_PITCH
        },
{
    lemma_pitch_limits();
    lemma_signed_magnitude_orders(raw, MIN_PITCH);
    lemma_signed_magnitude_orders(MAX_PITCH, raw);
}

/// Whatever number comes in, the pitch that comes out is at most one and a
/// half radians away from level.
pub proof fn lemma_clamped_pitch_bounds(raw: u32)
    requires
        !is_nan(raw),
    ensures
        !is_nan(clamped(raw, MIN_PITCH, MAX_PITCH)),
        -3 * pow2(148) <= scaled_value(clamped(raw, MIN_PITCH, MAX_PITCH)) <= 3 * pow2(148),
{
    lemma_pitch_limits();
}

} // verus!
