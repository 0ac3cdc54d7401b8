//! The control surface that every playback source has: transport, flags and
//! spatial properties, each as the command that the backend is to receive.

use vstd::prelude::*;
use crate::command::Command;
use crate::error::Error;
use crate::property::{flag_code, spec_flag_code, Flag, Scalar, Vector};

verus! {

/// A playback source of the audio backend, known by its name.
#[derive(Clone, Copy, Debug, PartialEq, Eq, Structural)]
pub struct Source {
    /// The backend's name for the source.
    pub id: u32,
}

impl Source {
    /// The command that starts or resumes the source.
    pub fn play(self) -> (command: Command)
        ensures
            command == (Command::Play { source: self.id }),
    {
        Command::Play { source: self.id }
    }

    /// The command that pauses the source.
    pub fn pause(self) -> (command: Command)
        ensures
            command == (Command::Pause { source: self.id }),
    {
        Command::Pause { source: self.id }
    }

    /// The command that stops the source.
    pub fn stop(self) -> (command: Command)
        ensures
            command == (Command::Stop { source: self.id }),
    {
        Command::Stop { source: self.id }
    }

    /// The command that makes `buffer` the one buffer of the source.
    pub fn bind(self, buffer: u32) -> (command: Command)
        ensures
            command == (Command::Bind { source: self.id, buffer }),
    {
        Command::Bind { source: self.id, buffer }
    }

    /// The command that releases the source.
    pub fn delete(self) -> (command: Command)
        ensures
            command == (Command::DeleteSource { source: self.id }),
    {
        Command::DeleteSource { source: self.id }
    }

    /// The command that sets or clears a flag of the source.
    pub fn set_flag(self, flag: Flag, on: bool) -> (command: Command)
        ensures
            command == (Command::SetFlag { source: self.id, flag, value: spec_flag_code(on) }),
    {
        Command::SetFlag { source: self.id, flag, value: flag_code(on) }
    }

    /// The command that sets a real-valued property to the number that `bits`
    /// is the pattern of.
    ///
    /// A number that the property does not take is rejected with
    /// `InvalidArgument`, and nothing is to be sent.
    pub fn set_scalar(self, scalar: Scalar, bits: u32) -> (command: Result<Command, Error>)
        ensures
            scalar.spec_accepts(bits) ==> command == Ok::<Command, Error>(
                Command::SetScalar { source: self.id, scalar, bits },
            ),
            !scalar.spec_accepts(bits) ==> command == Err::<Command, Error>(
                Error::InvalidArgument,
            ),
    {
        if scalar.accepts(bits) {
            Ok(Command::SetScalar { source: self.id, scalar, bits })
        } else {
            Err(Error::InvalidArgument)
        }
    }

    /// The command that sets a three-valued property to the numbers that `x`,
    /// `y` and `z` are the patterns of.
    pub fn set_vector(self, vector: Vector, x: u32, y: u32, z: u32) -> (command: Command)
        ensures
            command == (Command::SetVector { source: self.id, vector, x, y, z }),
    {
        Command::SetVector { source: self.id, vector, x, y, z }
    }
}

} // verus!
