//! Sample layouts that the audio backend plays, and the size of a chunk in bytes.

use vstd::prelude::*;

verus! {

/// The backend's number for one channel of 16-bit samples.
pub const AL_FORMAT_MONO16: i32 = 0x1101;

/// The backend's number for two interleaved channels of 16-bit samples.
pub const AL_FORMAT_STEREO16: i32 = 0x1103;

/// Bytes in one decoded sample.
pub const SAMPLE_BYTES: i32 = 2;

/// Samples asked of the decode source for one buffer, unless told otherwise.
pub const DEFAULT_CHUNK: i32 = 50000;

/// The largest chunk whose length in bytes the backend can still be told.
pub const MAX_CHUNK: i32 = 0x3fff_ffff;

/// A channel layout of 16-bit samples for which the backend has a format.
#[derive(Clone, Copy, Debug, PartialEq, Eq, Structural)]
pub enum SampleFormat {
    /// One channel.
    Mono16,
    /// Two channels, interleaved.
    Stereo16,
}

impl SampleFormat {
    /// The format for a stream of `channels` channels, if the backend has one.
    pub open spec fn spec_from_channels(channels: i32) -> Option<SampleFormat> {
        if channels == 1 {
            Some(SampleFormat::Mono16)
        } else if channels == 2 {
            Some(SampleFormat::Stereo16)
        } else {
            None
        }
    }

    /// The backend's number for this format.
    pub open spec fn spec_code(self) -> i32 {
        match self {
            SampleFormat::Mono16 => AL_FORMAT_MONO16,
            SampleFormat::Stereo16 => AL_FORMAT_STEREO16,
        }
    }

    /// The number of channels in this format.
    pub open spec fn spec_channels(self) -> i32 {
        match self {
            SampleFormat::Mono16 => 1,
            SampleFormat::Stereo16 => 2,
        }
    }

    /// Maps a channel count to the backend's format for it.
    ///
    /// `None` when the backend has no format for that many channels.
    #[verifier::when_used_as_spec(spec_from_channels)]
    pub fn from_channels(channels: i32) -> (format: Option<SampleFormat>)
        ensures
            format == SampleFormat::spec_from_channels(channels),
    {
        if channels == 1 {
            Some(SampleFormat::Mono16)
        } else if channels == 2 {
            Some(SampleFormat::Stereo16)
        } else {
            None
        }
    }

    /// The backend's number for this format.
    #[verifier::when_used_as_spec(spec_code)]
    pub fn code(self) -> (code: i32)
        ensures
            code == self.spec_code(),
    {
        match self {
            SampleFormat::Mono16 => AL_FORMAT_MONO16,
            SampleFormat::Stereo16 => AL_FORMAT_STEREO16,
        }
    }

    /// The number of channels in this format.
    #[verifier::when_used_as_spec(spec_channels)]
    pub fn channels(self) -> (channels: i32)
        ensures
            channels == self.spec_channels(),
    {
        match self {
            SampleFormat::Mono16 => 1,
            SampleFormat::Stereo16 => 2,
        }
    }
}

/// True when `chunk` can be the size of a read: positive, and small enough
/// that its length in bytes fits the backend's length type.
pub open spec fn valid_chunk(chunk: i32) -> bool {
    0 < chunk <= MAX_CHUNK
}

/// The samples that a read of up to `chunk` samples delivered, going by the
/// count it reported.
///
/// A count that such a read cannot report, negative or above `chunk`, stands
/// for no samples at all.
pub open spec fn samples_taken(reported: i64, chunk: i32) -> int {
    if 0 <= reported <= chunk {
        reported as int
    } else {
        0
    }
}

/// The length in bytes of what a read of up to `chunk` samples delivered.
pub open spec fn spec_byte_length(reported: i64, chunk: i32) -> int {
    SAMPLE_BYTES * samples_taken(reported, chunk)
}

/// Computes the length in bytes of what a read of up to `chunk` samples
/// delivered, from the count that the read reported.
pub fn byte_length(reported: i64, chunk: i32) -> (bytes: i32)
    requires
        valid_chunk(chunk),
    ensures
        bytes == spec_byte_length(reported, chunk),
        0 <= bytes <= SAMPLE_BYTES * chunk,
{
    if 0 <= reported && reported <= chunk as i64 {
        let taken: i32 = reported as i32;
        SAMPLE_BYTES * taken
    } else {
        0
    }
}

/// The two formats have different numbers, and a format comes back from its
/// own channel count.
pub proof fn lemma_format_round_trip(format: SampleFormat)
    ensures
        SampleFormat::spec_from_channels(format.spec_channels()) == Some(format),
        SampleFormat::Mono16.spec_code() != SampleFormat::Stereo16.spec_code(),
{
}

} // verus!
