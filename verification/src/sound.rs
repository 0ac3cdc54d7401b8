//! A short sound that is held in memory whole, in one buffer of the backend.

use std::rc::Rc;
use vstd::prelude::*;
use crate::command::Command;
use crate::error::Error;
use crate::metadata::{StreamInfo, Tags};
use crate::source::Source;
use crate::states::State;

verus! {

/// The samples of a sound, loaded into a buffer of the backend.
///
/// Several sounds can play the same data.
#[derive(Clone, Debug, PartialEq, Eq)]
pub struct SoundData {
    /// The backend's name for the buffer that holds the samples.
    pub buffer: u32,
    /// The shape of the sound.
    pub info: StreamInfo,
    /// The number of samples in the buffer.
    pub samples: i64,
    /// The tags of the file.
    pub tags: Tags,
}

/// The backend's name for the buffer of `sound_data`.
pub fn get_buffer(sound_data: &SoundData) -> (buffer: u32)
    ensures
        buffer == sound_data.buffer,
{
    sound_data.buffer
}

/// Everything a sound knows of itself.
#[derive(Clone, Debug, PartialEq, Eq)]
pub struct Voice {
    /// The source that plays the sound.
    pub source: u32,
    /// The data that the source plays.
    pub data: SoundData,
}

/// A short sound: a source of its own, and data that it may share.
#[derive(Debug)]
pub struct Sound {
    /// The backend's name for the source.
    al_source: u32,
    /// The data of the sound.
    sound_data: Rc<SoundData>,
}

impl View for Sound {
    type V = Voice;

    closed spec fn view(&self) -> Voice {
        Voice { source: self.al_source, data: *self.sound_data }
    }
}

impl Sound {
    /// What `new` returns.
    ///
    /// No data, no sound: `Open`. An error of the backend: `Hardware`. With
    /// neither, a sound that plays the data through the source.
    pub open spec fn spec_new(
        loaded: Option<SoundData>,
        source_id: u32,
        hardware_error: Option<i32>,
    ) -> Result<Voice, Error> {
        match loaded {
            None => Err(Error::Open),
            Some(data) => match hardware_error {
                Some(code) => Err(Error::Hardware { code }),
                None => Ok(Voice { source: source_id, data }),
            },
        }
    }

    /// Makes a sound out of what loading the file and setting up the backend
    /// gave.
    ///
    /// `loaded` is the data of the file, or `None` if it could not be loaded,
    /// in which case the other two are not looked at. `source_id` is the
    /// source that the backend made, and `hardware_error` the error that the
    /// backend held after the data's buffer was bound to it, if it held one.
    pub fn new(loaded: Option<SoundData>, source_id: u32, hardware_error: Option<i32>) -> (sound:
        Result<Sound, Error>)
        ensures
            match Sound::spec_new(loaded, source_id, hardware_error) {
                Ok(voice) => sound matches Ok(made) && made@ == voice,
                Err(error) => sound matches Err(given) && given == error,
            },
    {
        match loaded {
            Some(data) => Sound::new_with_data(Rc::new(data), source_id, hardware_error),
            None => Err(Error::Open),
        }
    }

    /// Makes a sound that plays `sound_data`.
    ///
    /// `source_id` is the source that the backend made, and `hardware_error`
    /// the error that the backend held after the data's buffer was bound to
    /// it, if it held one.
    pub fn new_with_data(
        sound_data: Rc<SoundData>,
        source_id: u32,
        hardware_error: Option<i32>,
    ) -> (sound: Result<Sound, Error>)
        ensures
            hardware_error matches Some(code) ==> (sound matches Err(error) && error == (
            Error::Hardware { code })),
            hardware_error is None ==> (sound matches Ok(made) && made@ == (
            Voice { source: source_id, data: *sound_data })),
    {
        match hardware_error {
            Some(code) => Err(Error::Hardware { code }),
            None => Ok(Sound { al_source: source_id, sound_data }),
        }
    }

    /// The data that the sound plays, shared with the sound.
    pub fn get_datas(&self) -> (datas: Rc<SoundData>)
        ensures
            *datas == self@.data,
    {
        self.sound_data.clone()
    }

    /// Gives the sound other data to play, given the state that its source
    /// reports.
    ///
    /// A playing sound keeps its data, and there is nothing to send. In every
    /// other state the sound takes the new data, and the command that binds
    /// the data's buffer to the source comes back.
    pub fn set_datas(&mut self, state: State, sound_data: Rc<SoundData>) -> (command: Option<
        Command,
    >)
        ensures
            state == State::Playing ==> final(self)@ == old(self)@ && command is None,
            state != State::Playing ==> final(self)@ == (
            Voice { source: old(self)@.source, data: *sound_data }) && command == Some(
                Command::Bind { source: old(self)@.source, buffer: sound_data.buffer },
            ),
    {
        if state.is_playing() {
            return None;
        }
        let command = self.source().bind(get_buffer(&sound_data));
        self.sound_data = sound_data;
        Some(command)
    }

    /// The tags of the file.
    pub fn get_tags(&self) -> (tags: &Tags)
        ensures
            *tags == self@.data.tags,
    {
        &self.sound_data.tags
    }

    /// The source that plays the sound.
    pub fn source(&self) -> (source: Source)
        ensures
            source.id == self@.source,
    {
        Source { id: self.al_source }
    }

    /// The command that takes the sound down: it releases the source. The
    /// data stays with whoever shares it.
    pub fn teardown(&self) -> (command: Command)
        ensures
            command == (Command::DeleteSource { source: self@.source }),
    {
        self.source().delete()
    }
}

} // verus!
