//! What the audio backend can be told to do.

use vstd::prelude::*;
use crate::format::SampleFormat;
use crate::property::{Flag, Scalar, Vector};

verus! {

/// One call of the audio backend, with everything the call is made with.
///
/// Nothing here performs the call. Whoever holds the backend performs it and
/// reports what came back.
#[derive(Clone, Copy, Debug, PartialEq, Eq, Structural)]
pub enum Command {
    /// Start, resume or restart the source.
    Play { source: u32 },
    /// Halt the source and keep its place.
    Pause { source: u32 },
    /// Halt the source for good.
    Stop { source: u32 },
    /// Ask the source for its transport state.
    QueryState { source: u32 },
    /// Ask the source how many of its queued buffers it has played through.
    CountProcessed { source: u32 },
    /// Load the first `bytes` bytes of the chunk read last into the buffer.
    Fill { buffer: u32, format: SampleFormat, bytes: i32, rate: i32 },
    /// Append one buffer to the source's queue.
    Queue { source: u32, buffer: u32 },
    /// Append two buffers to the source's queue, `first` ahead of `second`.
    QueuePair { source: u32, first: u32, second: u32 },
    /// Take the oldest played buffer off the source's queue.
    Unqueue { source: u32 },
    /// Make `buffer` the one buffer of the source; zero leaves it with none.
    Bind { source: u32, buffer: u32 },
    /// Set a flag of the source to the backend's true or false.
    SetFlag { source: u32, flag: Flag, value: i32 },
    /// Set a real-valued property of the source to the number of this pattern.
    SetScalar { source: u32, scalar: Scalar, bits: u32 },
    /// Set a three-valued property of the source to the numbers of these patterns.
    SetVector { source: u32, vector: Vector, x: u32, y: u32, z: u32 },
    /// Release two buffers.
    DeleteBuffers { first: u32, second: u32 },
    /// Release the source.
    DeleteSource { source: u32 },
}

impl Command {
    /// The transport command that this is, if it is one.
    pub open spec fn spec_transport(self) -> Option<crate::states::Transport> {
        match self {
            Command::Play { .. } => Some(crate::states::Transport::Play),
            Command::Pause { .. } => Some(crate::states::Transport::Pause),
            Command::Stop { .. } => Some(crate::states::Transport::Stop),
            _ => None,
        }
    }

    /// The transport command that this is, if it is one.
    #[verifier::when_used_as_spec(spec_transport)]
    pub fn transport(self) -> (transport: Option<crate::states::Transport>)
        ensures
            transport == self.spec_transport(),
    {
        match self {
            Command::Play { .. } => Some(crate::states::Transport::Play),
            Command::Pause { .. } => Some(crate::states::Transport::Pause),
            Command::Stop { .. } => Some(crate::states::Transport::Stop),
            _ => None,
        }
    }
}

} // verus!
