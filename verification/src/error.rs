//! Why a sound or a stream could not be made, or a value not be taken.

use vstd::prelude::*;

verus! {

/// What went wrong.
#[derive(Clone, Copy, Debug, PartialEq, Eq, Structural)]
pub enum Error {
    /// The file could not be opened, or not be decoded.
    Open,
    /// The backend has no sample format for this many channels.
    UnsupportedFormat { channels: i32 },
    /// The audio backend reported this error.
    Hardware { code: i32 },
    /// The value lies outside what the property takes.
    InvalidArgument,
}

} // verus!
