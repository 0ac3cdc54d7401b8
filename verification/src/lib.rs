//! Sounds and music on an audio backend, decided here and performed elsewhere.
//!
//! Nothing in this crate touches a file or the audio backend. Every function
//! takes what was observed there as plain values, and gives back what is to be
//! done next: a [`command::Command`] for the backend, or a step of a streaming
//! session, a [`refill::Action`]. The caller performs it and reports back.
//!
//! * [`sound::Sound`] is a short sound, held in one buffer of the backend.
//! * [`music::Music`] is a long track, streamed through two buffers by a
//!   [`refill::Refill`] session.
//! * [`laws`] holds what is proved of both.

pub mod command;
pub mod error;
pub mod format;
pub mod laws;
pub mod looping;
pub mod metadata;
pub mod music;
pub mod property;
pub mod reel;
pub mod refill;
pub mod sound;
pub mod source;
pub mod states;

pub use error::Error;
pub use metadata::Tags;
pub use music::Music;
pub use sound::{Sound, SoundData};
pub use states::State;
