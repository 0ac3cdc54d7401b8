//! The properties of a playback source, and which values each of them takes.
//!
//! A real-valued property travels as the bit pattern of a 32-bit IEEE 754
//! number: one sign bit, eight exponent bits, twenty-three fraction bits.

use vstd::prelude::*;

verus! {

/// The backend's number for a flag that is set.
pub const ALC_TRUE: i32 = 1;

/// The backend's number for a flag that is clear.
pub const ALC_FALSE: i32 = 0;

/// The sign bit of a 32-bit pattern.
pub const SIGN_BIT: u32 = 0x8000_0000;

/// The pattern of positive infinity; every larger magnitude is not a number.
pub const INFINITY_BITS: u32 = 0x7f80_0000;

/// The pattern of the number one.
pub const ONE_BITS: u32 = 0x3f80_0000;

/// A property of a source that is on or off.
#[derive(Clone, Copy, Debug, PartialEq, Eq, Structural)]
pub enum Flag {
    /// The backend replays the source's buffer by itself.
    Looping,
    /// The source's position is relative to the listener.
    Relative,
}

/// A property of a source that holds one real number.
#[derive(Clone, Copy, Debug, PartialEq, Eq, Structural)]
pub enum Scalar {
    /// The volume.
    Gain,
    /// The least volume left after attenuation.
    MinGain,
    /// The greatest volume left after attenuation.
    MaxGain,
    /// The multiplier of the sample rate.
    Pitch,
    /// The distance beyond which attenuation stops.
    MaxDistance,
    /// The distance within which nothing is attenuated.
    ReferenceDistance,
    /// The multiplier of the attenuation by distance.
    Rolloff,
}

/// A property of a source that holds three real numbers.
#[derive(Clone, Copy, Debug, PartialEq, Eq, Structural)]
pub enum Vector {
    /// Where the source is.
    Position,
    /// Where the source points.
    Direction,
}

/// The pattern without its sign bit.
pub open spec fn magnitude(bits: u32) -> u32 {
    bits & !SIGN_BIT
}

/// True when the sign bit is set.
pub open spec fn sign_set(bits: u32) -> bool {
    bits & SIGN_BIT != 0
}

/// True when the pattern is not a number.
pub open spec fn is_nan(bits: u32) -> bool {
    magnitude(bits) > INFINITY_BITS
}

/// True when the pattern is a number that is zero or above.
///
/// Zero with the sign bit set counts as zero.
pub open spec fn non_negative(bits: u32) -> bool {
    !is_nan(bits) && (!sign_set(bits) || magnitude(bits) == 0)
}

/// True when the pattern is a number above zero.
pub open spec fn positive(bits: u32) -> bool {
    !is_nan(bits) && !sign_set(bits) && magnitude(bits) != 0
}

/// True when the pattern is a number that is one or below.
///
/// Among the patterns without a sign bit, a greater pattern is a greater
/// number, so these are the patterns up to that of one.
pub open spec fn at_most_one(bits: u32) -> bool {
    !is_nan(bits) && (sign_set(bits) || magnitude(bits) <= ONE_BITS)
}

impl Scalar {
    /// True when the property takes the number that `bits` is the pattern of.
    ///
    /// The volume, the two distances and the rolloff take zero and above. The
    /// least and the greatest volume take zero to one. The pitch takes what is
    /// above zero. No property takes what is not a number.
    pub open spec fn spec_accepts(self, bits: u32) -> bool {
        match self {
            Scalar::Gain => non_negative(bits),
            Scalar::MinGain => non_negative(bits) && at_most_one(bits),
            Scalar::MaxGain => non_negative(bits) && at_most_one(bits),
            Scalar::Pitch => positive(bits),
            Scalar::MaxDistance => non_negative(bits),
            Scalar::ReferenceDistance => non_negative(bits),
            Scalar::Rolloff => non_negative(bits),
        }
    }

    /// Decides whether the property takes the number that `bits` is the
    /// pattern of.
    #[verifier::when_used_as_spec(spec_accepts)]
    pub fn accepts(self, bits: u32) -> (accepted: bool)
        ensures
            accepted == self.spec_accepts(bits),
    {
        let zero_or_above = bits <= INFINITY_BITS || bits == SIGN_BIT;
        proof {
            lemma_pattern_ranges(bits);
        }
        match self {
            Scalar::Gain => zero_or_above,
            Scalar::MinGain => bits <= ONE_BITS || bits == SIGN_BIT,
            Scalar::MaxGain => bits <= ONE_BITS || bits == SIGN_BIT,
            Scalar::Pitch => 0 < bits && bits <= INFINITY_BITS,
            Scalar::MaxDistance => zero_or_above,
            Scalar::ReferenceDistance => zero_or_above,
            Scalar::Rolloff => zero_or_above,
        }
    }
}

/// The patterns of each class form a range, but for zero with its sign set.
pub proof fn lemma_pattern_ranges(bits: u32)
    ensures
        non_negative(bits) <==> bits <= INFINITY_BITS || bits == SIGN_BIT,
        positive(bits) <==> 0 < bits <= INFINITY_BITS,
        non_negative(bits) && at_most_one(bits) <==> bits <= ONE_BITS || bits == SIGN_BIT,
{
    assert((bits & !0x8000_0000u32) <= 0x7f80_0000u32 && (bits & 0x8000_0000u32 == 0 || bits
        & !0x8000_0000u32 == 0) <==> bits <= 0x7f80_0000u32 || bits == 0x8000_0000u32)
        by (bit_vector);
    assert((bits & !0x8000_0000u32) <= 0x7f80_0000u32 && bits & 0x8000_0000u32 == 0 && bits
        & !0x8000_0000u32 != 0 <==> 0 < bits <= 0x7f80_0000u32) by (bit_vector);
    assert((bits & !0x8000_0000u32) <= 0x7f80_0000u32 && (bits & 0x8000_0000u32 == 0 || bits
        & !0x8000_0000u32 == 0) && (bits & 0x8000_0000u32 != 0 || bits & !0x8000_0000u32
        <= 0x3f80_0000u32) <==> bits <= 0x3f80_0000u32 || bits == 0x8000_0000u32)
        by (bit_vector);
}

/// The backend's number for a flag that is `on`.
pub open spec fn spec_flag_code(on: bool) -> i32 {
    if on {
        ALC_TRUE
    } else {
        ALC_FALSE
    }
}

/// The flag that the backend reported by `reported`, read from its low byte.
pub open spec fn spec_flag_value(reported: i32) -> Option<bool> {
    if reported as i8 == ALC_TRUE {
        Some(true)
    } else if reported as i8 == ALC_FALSE {
        Some(false)
    } else {
        None
    }
}

/// The backend's number for a flag that is `on`.
#[verifier::when_used_as_spec(spec_flag_code)]
pub fn flag_code(on: bool) -> (code: i32)
    ensures
        code == spec_flag_code(on),
{
    if on {
        ALC_TRUE
    } else {
        ALC_FALSE
    }
}

/// Reads a flag out of the number that the backend reported.
///
/// Only the low byte of the number counts. `None` when that byte is neither
/// the backend's true nor its false.
#[verifier::when_used_as_spec(spec_flag_value)]
pub fn flag_value(reported: i32) -> (value: Option<bool>)
    ensures
        value == spec_flag_value(reported),
{
    let low: i8 = #[verifier::truncate] (reported as i8);
    if low == 1 {
        Some(true)
    } else if low == 0 {
        Some(false)
    } else {
        None
    }
}

/// A flag comes back from its own number.
pub proof fn lemma_flag_round_trip(on: bool)
    ensures
        spec_flag_value(spec_flag_code(on)) == Some(on),
{
    assert(1i32 as i8 == 1i8) by (bit_vector);
    assert(0i32 as i8 == 0i8) by (bit_vector);
}

} // verus!
