//! The transport state of a playback source, and how transport commands move it.

use vstd::prelude::*;

verus! {

/// The number by which the audio backend names the state `Initial`.
pub const AL_INITIAL: i32 = 0x1011;

/// The number by which the audio backend names the state `Playing`.
pub const AL_PLAYING: i32 = 0x1012;

/// The number by which the audio backend names the state `Paused`.
pub const AL_PAUSED: i32 = 0x1013;

/// The number by which the audio backend names the state `Stopped`.
pub const AL_STOPPED: i32 = 0x1014;

/// What a playback source reports of itself.
#[derive(Clone, Copy, Debug, PartialEq, Eq, Structural)]
pub enum State {
    /// Never played since it was created.
    Initial,
    /// Emitting sound.
    Playing,
    /// Halted, keeping its place.
    Paused,
    /// Halted for good, or run dry.
    Stopped,
}

/// A transport command, as a source receives it.
#[derive(Clone, Copy, Debug, PartialEq, Eq, Structural)]
pub enum Transport {
    /// Start, resume or restart.
    Play,
    /// Halt and keep the place.
    Pause,
    /// Halt for good.
    Stop,
}

impl State {
    /// The state that the backend names by `code`, if it names one.
    pub open spec fn spec_from_code(code: i32) -> Option<State> {
        if code == AL_INITIAL {
            Some(State::Initial)
        } else if code == AL_PLAYING {
            Some(State::Playing)
        } else if code == AL_PAUSED {
            Some(State::Paused)
        } else if code == AL_STOPPED {
            Some(State::Stopped)
        } else {
            None
        }
    }

    /// The backend's number for this state.
    pub open spec fn spec_code(self) -> i32 {
        match self {
            State::Initial => AL_INITIAL,
            State::Playing => AL_PLAYING,
            State::Paused => AL_PAUSED,
            State::Stopped => AL_STOPPED,
        }
    }

    /// The state of a source that was in `self` and then received `command`.
    ///
    /// `Play` always leads to `Playing`. `Pause` moves a playing source to
    /// `Paused` and leaves every other state alone. `Stop` leads to `Stopped`
    /// from every state but `Initial`, which it leaves alone.
    pub open spec fn spec_after(self, command: Transport) -> State {
        match command {
            Transport::Play => State::Playing,
            Transport::Pause => if self == State::Playing {
                State::Paused
            } else {
                self
            },
            Transport::Stop => if self == State::Initial {
                State::Initial
            } else {
                State::Stopped
            },
        }
    }

    /// Reads a state out of the number that the backend reported.
    ///
    /// `None` when the number names no state.
    #[verifier::when_used_as_spec(spec_from_code)]
    pub fn from_code(code: i32) -> (state: Option<State>)
        ensures
            state == State::spec_from_code(code),
    {
        if code == AL_INITIAL {
            Some(State::Initial)
        } else if code == AL_PLAYING {
            Some(State::Playing)
        } else if code == AL_PAUSED {
            Some(State::Paused)
        } else if code == AL_STOPPED {
            Some(State::Stopped)
        } else {
            None
        }
    }

    /// The backend's number for this state.
    #[verifier::when_used_as_spec(spec_code)]
    pub fn code(self) -> (code: i32)
        ensures
            code == self.spec_code(),
    {
        match self {
            State::Initial => AL_INITIAL,
            State::Playing => AL_PLAYING,
            State::Paused => AL_PAUSED,
            State::Stopped => AL_STOPPED,
        }
    }

    /// True for `Playing` and for nothing else.
    pub fn is_playing(self) -> (playing: bool)
        ensures
            playing == (self == State::Playing),
    {
        match self {
            State::Playing => true,
            _ => false,
        }
    }

    /// The state that follows `self` when the source receives `command`.
    #[verifier::when_used_as_spec(spec_after)]
    pub fn after(self, command: Transport) -> (next: State)
        ensures
            next == self.spec_after(command),
    {
        match command {
            Transport::Play => State::Playing,
            Transport::Pause => match self {
                State::Playing => State::Paused,
                other => other,
            },
            Transport::Stop => match self {
                State::Initial => State::Initial,
                _ => State::Stopped,
            },
        }
    }
}

/// A state survives the trip through its number, and a number that names a
/// state is the number of that state.
pub proof fn lemma_state_code_round_trip(state: State, code: i32)
    ensures
        State::spec_from_code(state.spec_code()) == Some(state),
        State::spec_from_code(code) == Some(state) ==> state.spec_code() == code,
{
}

} // verus!
