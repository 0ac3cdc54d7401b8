//! A music track that is streamed: decoded chunk by chunk while it plays.

use vstd::prelude::*;
use crate::command::Command;
use crate::error::Error;
use crate::format::{valid_chunk, SampleFormat, DEFAULT_CHUNK};
use crate::metadata::{StreamInfo, Tags};
use crate::refill::{Refill, Session};
use crate::source::Source;
use crate::states::State;

verus! {

/// What `play` asks for.
#[derive(Debug)]
pub enum PlayPlan {
    /// Send this command, and nothing else: the stream goes on where it was
    /// paused.
    Resume(Command),
    /// Drive this session: the stream starts over from its first frame.
    Restart(Refill),
}

/// What `play` asks for, with the session laid open.
pub enum Plan {
    /// Send this command, and nothing else.
    Resume(Command),
    /// Drive a session that begins like this.
    Restart(Session),
}

impl View for PlayPlan {
    type V = Plan;

    open spec fn view(&self) -> Plan {
        match self {
            PlayPlan::Resume(command) => Plan::Resume(*command),
            PlayPlan::Restart(refill) => Plan::Restart(refill@),
        }
    }
}

/// One step of taking a stream down.
#[derive(Clone, Copy, Debug, PartialEq, Eq)]
pub enum Release {
    /// Send this command to the audio backend.
    Sink(Command),
    /// Wait until the worker has left.
    Join,
}

/// Everything a stream knows of itself.
#[derive(Clone, Debug, PartialEq, Eq)]
pub struct Stream {
    /// The source that plays the stream.
    pub source: u32,
    /// The buffer that is primed first.
    pub first: u32,
    /// The buffer that is primed second.
    pub second: u32,
    /// The shape of the stream.
    pub info: StreamInfo,
    /// The samples asked of the decode source per read.
    pub chunk: i32,
    /// The layout of the samples.
    pub format: SampleFormat,
    /// The tags of the file.
    pub tags: Tags,
    /// Whether the stream is to start over when it ends.
    pub looping: bool,
    /// Whether a worker was started for the stream.
    pub worker: bool,
}

impl Stream {
    /// The session that a restart drives: stopping the source first when it
    /// is playing, waiting for the worker that was started before when there
    /// is one, and going by the looping flag as it stands.
    pub open spec fn session(self, state: State) -> Session {
        Session::begin(
            self.source,
            self.first,
            self.second,
            self.format,
            self.info.samplerate,
            self.chunk,
            self.looping,
            state == State::Playing,
            self.worker,
        )
    }

    /// What `play` asks for when the source reports `state`: to resume a
    /// paused source with one command, and to start over in every other
    /// state.
    pub open spec fn plan(self, state: State) -> Plan {
        if state == State::Paused {
            Plan::Resume(Command::Play { source: self.source })
        } else {
            Plan::Restart(self.session(state))
        }
    }

    /// The stream after `play`: as before when the source is paused, and with
    /// a worker in every other state.
    pub open spec fn played(self, state: State) -> Stream {
        if state == State::Paused {
            self
        } else {
            Stream { worker: true, ..self }
        }
    }

    /// The stream once it was asked to loop, or not to.
    pub open spec fn with_looping(self, looping: bool) -> Stream {
        Stream { looping, ..self }
    }

    /// What is to reach the worker when the stream is asked to loop, or not
    /// to: the request itself where a worker was started, and nothing where
    /// none was.
    pub open spec fn request(self, looping: bool) -> Option<bool> {
        if self.worker {
            Some(looping)
        } else {
            None
        }
    }

    /// The steps that take the stream down, in their order: stop the source,
    /// wait for the worker if there is one, and only then take the buffers
    /// off the source and release buffers and source.
    pub open spec fn teardown(self) -> Seq<Release> {
        let halt = seq![Release::Sink(Command::Stop { source: self.source })];
        let join = if self.worker {
            seq![Release::Join]
        } else {
            Seq::<Release>::empty()
        };
        let free = seq![
            Release::Sink(Command::Bind { source: self.source, buffer: 0 }),
            Release::Sink(Command::DeleteBuffers { first: self.first, second: self.second }),
            Release::Sink(Command::DeleteSource { source: self.source }),
        ];
        halt + join + free
    }
}

/// A single music track.
///
/// The track is not held in memory. While it plays, a worker reads it chunk
/// by chunk and hands the chunks to the source through two buffers, which it
/// fills in turn.
#[derive(Debug)]
pub struct Music {
    /// The backend's name for the source.
    al_source: u32,
    /// The backend's names for the two buffers.
    al_buffers: [u32; 2],
    /// The shape of the stream.
    file_infos: StreamInfo,
    /// The samples to read each time.
    sample_to_read: i32,
    /// The layout of the samples.
    sample_format: SampleFormat,
    /// The tags of the file.
    sound_tags: Tags,
    /// Whether the stream is to start over when it ends.
    is_looping: bool,
    /// Whether a worker was started.
    worker: bool,
}

impl View for Music {
    type V = Stream;

    closed spec fn view(&self) -> Stream {
        Stream {
            source: self.al_source,
            first: self.al_buffers[0],
            second: self.al_buffers[1],
            info: self.file_infos,
            chunk: self.sample_to_read,
            format: self.sample_format,
            tags: self.sound_tags,
            looping: self.is_looping,
            worker: self.worker,
        }
    }
}

impl Music {
    #[verifier::type_invariant]
    spec fn chunk_is_valid(self) -> bool {
        valid_chunk(self.sample_to_read)
    }

    /// What `new` returns.
    ///
    /// No file, no stream: `Open`. A file whose channel count the backend has
    /// no format for: `UnsupportedFormat`. An error of the backend, as it
    /// stood after source and buffers were made: `Hardware`. With none of
    /// these, a stream that does not loop, has no worker, and reads the
    /// default chunk.
    pub open spec fn spec_new(
        opened: Option<(StreamInfo, Tags)>,
        source_id: u32,
        buffer_ids: [u32; 2],
        hardware_error: Option<i32>,
    ) -> Result<Stream, Error> {
        match opened {
            None => Err(Error::Open),
            Some((info, tags)) => match SampleFormat::spec_from_channels(info.channels) {
                None => Err(Error::UnsupportedFormat { channels: info.channels }),
                Some(format) => match hardware_error {
                    Some(code) => Err(Error::Hardware { code }),
                    None => Ok(
                        Stream {
                            source: source_id,
                            first: buffer_ids[0],
                            second: buffer_ids[1],
                            info,
                            chunk: DEFAULT_CHUNK,
                            format,
                            tags,
                            looping: false,
                            worker: false,
                        },
                    ),
                },
            },
        }
    }

    /// Makes a stream out of what opening the file and setting up the backend
    /// gave.
    ///
    /// `opened` is what the decode source reported of the file, or `None` if
    /// it could not open it. `source_id` and `buffer_ids` are the source and
    /// the two buffers that the backend made, and `hardware_error` is the
    /// error that the backend held after making them, if it held one.
    pub fn new(
        opened: Option<(StreamInfo, Tags)>,
        source_id: u32,
        buffer_ids: [u32; 2],
        hardware_error: Option<i32>,
    ) -> (music: Result<Music, Error>)
        ensures
            match Music::spec_new(opened, source_id, buffer_ids, hardware_error) {
                Ok(stream) => music matches Ok(made) && made@ == stream,
                Err(error) => music matches Err(given) && given == error,
            },
    {
        let (info, tags) = match opened {
            Some(found) => found,
            None => {
                return Err(Error::Open);
            },
        };
        let format = match SampleFormat::from_channels(info.channels) {
            Some(format) => format,
            None => {
                return Err(Error::UnsupportedFormat { channels: info.channels });
            },
        };
        match hardware_error {
            Some(code) => {
                return Err(Error::Hardware { code });
            },
            None => {},
        }
        Ok(
            Music {
                al_source: source_id,
                al_buffers: buffer_ids,
                file_infos: info,
                sample_to_read: DEFAULT_CHUNK,
                sample_format: format,
                sound_tags: tags,
                is_looping: false,
                worker: false,
            },
        )
    }

    /// Starts a worker's session for the stream, and notes that the stream
    /// has a worker.
    fn process_music(&mut self, halt: bool) -> (refill: Refill)
        ensures
            refill@ == Session::begin(
                old(self)@.source,
                old(self)@.first,
                old(self)@.second,
                old(self)@.format,
                old(self)@.info.samplerate,
                old(self)@.chunk,
                old(self)@.looping,
                halt,
                old(self)@.worker,
            ),
            final(self)@ == (Stream { worker: true, ..old(self)@ }),
    {
        proof {
            use_type_invariant(&*self);
        }
        let retire = self.worker;
        self.worker = true;
        Refill::begin(
            self.al_source,
            self.al_buffers[0],
            self.al_buffers[1],
            self.sample_format,
            self.file_infos.samplerate,
            self.sample_to_read,
            self.is_looping,
            halt,
            retire,
        )
    }

    /// The tags of the file.
    pub fn get_tags(&self) -> (tags: &Tags)
        ensures
            *tags == self@.tags,
    {
        &self.sound_tags
    }

    /// The shape of the stream.
    pub fn info(&self) -> (info: StreamInfo)
        ensures
            info == self@.info,
    {
        self.file_infos
    }

    /// The source that plays the stream.
    pub fn source(&self) -> (source: Source)
        ensures
            source.id == self@.source,
    {
        Source { id: self.al_source }
    }

    /// Plays or resumes the stream, given the state that its source reports.
    ///
    /// A paused source is resumed, and nothing else happens. In every other
    /// state the stream starts over: a new session stops the source first if
    /// it is playing, waits for the worker of the session before it if there
    /// was one, rewinds the decode source and primes the buffers.
    pub fn play(&mut self, state: State) -> (plan: PlayPlan)
        ensures
            plan@ == old(self)@.plan(state),
            final(self)@ == old(self)@.played(state),
    {
        match state {
            State::Paused => PlayPlan::Resume(self.source().play()),
            _ => {
                let halt = state.is_playing();
                PlayPlan::Restart(self.process_music(halt))
            },
        }
    }

    /// The command that pauses the stream.
    pub fn pause(&self) -> (command: Command)
        ensures
            command == (Command::Pause { source: self@.source }),
    {
        self.source().pause()
    }

    /// The command that stops the stream.
    ///
    /// The worker is not told. It finds the source stopped at its next look
    /// and leaves.
    pub fn stop(&self) -> (command: Command)
        ensures
            command == (Command::Stop { source: self@.source }),
    {
        self.source().stop()
    }

    /// Sets whether the stream starts over when it ends.
    ///
    /// The flag is kept at once. Where a worker was started, the flag comes
    /// back as the request that is to be put into the worker's slot.
    pub fn set_looping(&mut self, looping: bool) -> (request: Option<bool>)
        ensures
            final(self)@ == old(self)@.with_looping(looping),
            request == old(self)@.request(looping),
    {
        proof {
            use_type_invariant(&*self);
        }
        self.is_looping = looping;
        if self.worker {
            Some(looping)
        } else {
            None
        }
    }

    /// Whether the stream is to start over when it ends, as requested last.
    pub fn is_looping(&self) -> (looping: bool)
        ensures
            looping == self@.looping,
    {
        self.is_looping
    }

    /// Whether a worker was started for the stream.
    pub fn has_worker(&self) -> (worker: bool)
        ensures
            worker == self@.worker,
    {
        self.worker
    }

    /// The steps that take the stream down, in the order in which they are
    /// to be performed.
    pub fn teardown(&self) -> (steps: Vec<Release>)
        ensures
            steps@ == self@.teardown(),
    {
        let mut steps: Vec<Release> = Vec::new();
        steps.push(Release::Sink(self.source().stop()));
        if self.worker {
            steps.push(Release::Join);
        }
        steps.push(Release::Sink(self.source().bind(0)));
        steps.push(
            Release::Sink(
                Command::DeleteBuffers { first: self.al_buffers[0], second: self.al_buffers[1] },
            ),
        );
        steps.push(Release::Sink(self.source().delete()));
        assert(steps@ =~= self@.teardown());
        steps
    }
}

} // verus!
