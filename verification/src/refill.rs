//! The streaming session of one `play`: what to do next, given what just
//! happened.
//!
//! A session brings the source to rest where it is playing, waits for the
//! worker of the session before it where there is one, rewinds the decode
//! source, primes the two buffers, starts the source, and then keeps the
//! source supplied until the backend reports it stopped. The session performs nothing itself. It names the next step as an
//! [`Action`]; whoever drives it performs the step and reports the outcome as
//! an [`Event`]; the session then names the step after that.

use vstd::prelude::*;
use crate::command::Command;
use crate::format::{
    byte_length, samples_taken, spec_byte_length, valid_chunk, SampleFormat, SAMPLE_BYTES,
};
use crate::states::State;

verus! {

/// Milliseconds that a source is given to come to rest after a stop.
pub const SETTLE_MILLIS: u64 = 50;

/// Milliseconds between two looks at the source.
pub const POLL_MILLIS: u64 = 50;

/// The next step of a session.
#[derive(Clone, Copy, Debug, PartialEq, Eq)]
pub enum Action {
    /// Send this command to the audio backend.
    Sink(Command),
    /// Seek the decode source to its first frame.
    Rewind,
    /// Read up to `samples` samples from the decode source into the chunk.
    Read { samples: i32 },
    /// Let this many milliseconds pass.
    Sleep { millis: u64 },
    /// Take the looping flag that was requested last, if one is waiting.
    PollLooping,
    /// Wait until the worker that was started before has left, and take the
    /// decode source back from it.
    Join,
    /// Move the session and the decode source to a worker of their own.
    Detach,
    /// Leave: the session is over.
    Exit,
}

/// The outcome of a step.
#[derive(Clone, Copy, Debug, PartialEq, Eq)]
pub enum Event {
    /// The step was performed and reports nothing.
    Done,
    /// The audio backend reported an error for the command.
    Fault,
    /// The decode source delivered this many samples.
    Read(i64),
    /// The looping flag that was waiting, if any.
    Looping(Option<bool>),
    /// The source has played through this many of its queued buffers.
    Processed(i32),
    /// This buffer came off the source's queue.
    Unqueued(u32),
    /// The source is in this transport state.
    State(State),
}

impl Event {
    /// The event that reports `code` as the answer to a question for the
    /// state: the state that the number names, and a fault when it names
    /// none.
    pub open spec fn spec_of_state_code(code: i32) -> Event {
        match State::spec_from_code(code) {
            Some(state) => Event::State(state),
            None => Event::Fault,
        }
    }

    /// Turns the number by which the backend answered a question for the
    /// state into the event that reports it.
    ///
    /// A number that names no state is reported as a fault.
    #[verifier::when_used_as_spec(spec_of_state_code)]
    pub fn of_state_code(code: i32) -> (event: Event)
        ensures
            event == Event::spec_of_state_code(code),
    {
        match State::from_code(code) {
            Some(state) => Event::State(state),
            None => Event::Fault,
        }
    }
}

/// Where a session stands: the step that is under way.
#[derive(Clone, Copy, Debug, PartialEq, Eq)]
pub enum Phase {
    /// Stopping a source that was playing, before it is used again;
    /// `retire` when a worker was started before.
    Halting { retire: bool },
    /// Letting the stopped source come to rest.
    Settling { retire: bool },
    /// Waiting for the worker that was started before to leave.
    Retiring,
    /// Seeking the decode source to its first frame.
    Rewinding,
    /// Reading the chunk for the first buffer, or for the second.
    PrimeRead { second: bool },
    /// Loading the chunk into the first buffer, or into the second.
    PrimeFill { second: bool, bytes: i32 },
    /// Queueing both buffers.
    PrimeQueue,
    /// Starting the source.
    Starting,
    /// Moving to a worker.
    Detaching,
    /// Waiting out the poll interval.
    Waiting,
    /// Looking for a new looping flag.
    Polling,
    /// Asking how many buffers the source has played through.
    Counting,
    /// Taking a played buffer off the queue.
    Unqueuing,
    /// Reading the next chunk for `buffer`; `rewound` once the decode source
    /// was sent back to its start for this buffer.
    Reading { buffer: u32, rewound: bool },
    /// Sending the decode source back to its start, the stream having ended.
    Seeking { buffer: u32 },
    /// Loading the chunk into `buffer`.
    Filling { buffer: u32, bytes: i32 },
    /// Putting `buffer` back on the queue.
    Queuing { buffer: u32 },
    /// Asking the source for its transport state.
    Checking,
    /// Taking the buffers off the stopped source.
    Unbinding,
    /// Over.
    Finished,
}

/// Everything a session knows.
#[derive(Clone, Copy, Debug, PartialEq, Eq)]
pub struct Session {
    /// The source that plays the stream.
    pub source: u32,
    /// The buffer that is primed first.
    pub first: u32,
    /// The buffer that is primed second.
    pub second: u32,
    /// The layout of the samples.
    pub format: SampleFormat,
    /// The samples per second.
    pub rate: i32,
    /// The samples asked of the decode source per read.
    pub chunk: i32,
    /// Whether the stream starts over when it ends.
    pub looping: bool,
    /// The step that is under way.
    pub phase: Phase,
}

impl Session {
    /// True when the session is one that can come about.
    ///
    /// Its chunk size is valid. A length that it is about to load is that of
    /// some read. And it only ever sends the decode source back to its start
    /// while it loops.
    pub open spec fn wf(self) -> bool {
        &&& valid_chunk(self.chunk)
        &&& match self.phase {
            Phase::PrimeFill { bytes, .. } => self.loadable(bytes),
            Phase::Filling { bytes, .. } => self.loadable(bytes),
            Phase::Seeking { .. } => self.looping,
            Phase::Reading { rewound, .. } => rewound ==> self.looping,
            _ => true,
        }
    }

    /// True when `bytes` can be the length in bytes of what a read delivered:
    /// a whole number of samples, and no more of them than a chunk holds.
    pub open spec fn loadable(self, bytes: i32) -> bool {
        0 <= bytes <= SAMPLE_BYTES * self.chunk && bytes % SAMPLE_BYTES == 0
    }

    /// The session as it begins: stopping the source first when `halt` is
    /// set, waiting for the worker that was started before when `retire` is
    /// set, and rewinding the decode source at once when neither is.
    pub open spec fn begin(
        source: u32,
        first: u32,
        second: u32,
        format: SampleFormat,
        rate: i32,
        chunk: i32,
        looping: bool,
        halt: bool,
        retire: bool,
    ) -> Session {
        Session {
            source,
            first,
            second,
            format,
            rate,
            chunk,
            looping,
            phase: if halt {
                Phase::Halting { retire }
            } else {
                Session::rested(retire)
            },
        }
    }

    /// The phase of a session whose source is at rest: waiting for the worker
    /// that was started before, if there is one to `retire`, and rewinding the
    /// decode source if there is none.
    pub open spec fn rested(retire: bool) -> Phase {
        if retire {
            Phase::Retiring
        } else {
            Phase::Rewinding
        }
    }

    /// The same session in another phase.
    pub open spec fn at(self, phase: Phase) -> Session {
        Session { phase, ..self }
    }

    /// The command that loads `bytes` bytes of the chunk into `buffer`.
    pub open spec fn fill(self, buffer: u32, bytes: i32) -> Command {
        Command::Fill { buffer, format: self.format, bytes, rate: self.rate }
    }

    /// The step that is under way.
    pub open spec fn action(self) -> Action {
        match self.phase {
            Phase::Halting { .. } => Action::Sink(Command::Stop { source: self.source }),
            Phase::Settling { .. } => Action::Sleep { millis: SETTLE_MILLIS },
            Phase::Retiring => Action::Join,
            Phase::Rewinding => Action::Rewind,
            Phase::PrimeRead { .. } => Action::Read { samples: self.chunk },
            Phase::PrimeFill { second, bytes } => Action::Sink(
                self.fill(
                    if second {
                        self.second
                    } else {
                        self.first
                    },
                    bytes,
                ),
            ),
            Phase::PrimeQueue => Action::Sink(
                Command::QueuePair { source: self.source, first: self.first, second: self.second },
            ),
            Phase::Starting => Action::Sink(Command::Play { source: self.source }),
            Phase::Detaching => Action::Detach,
            Phase::Waiting => Action::Sleep { millis: POLL_MILLIS },
            Phase::Polling => Action::PollLooping,
            Phase::Counting => Action::Sink(Command::CountProcessed { source: self.source }),
            Phase::Unqueuing => Action::Sink(Command::Unqueue { source: self.source }),
            Phase::Reading { .. } => Action::Read { samples: self.chunk },
            Phase::Seeking { .. } => Action::Rewind,
            Phase::Filling { buffer, bytes } => Action::Sink(self.fill(buffer, bytes)),
            Phase::Queuing { buffer } => Action::Sink(
                Command::Queue { source: self.source, buffer },
            ),
            Phase::Checking => Action::Sink(Command::QueryState { source: self.source }),
            Phase::Unbinding => Action::Sink(Command::Bind { source: self.source, buffer: 0 }),
            Phase::Finished => Action::Exit,
        }
    }

    /// True when `event` is an outcome that the step under way can have.
    ///
    /// A command to the backend ends in a fault, or in what that command
    /// reports: the state, a count, a buffer, or nothing. A read ends in a
    /// count of samples, a look for the looping flag in what it found, and
    /// every other step in nothing. No event answers `Exit`.
    pub open spec fn answers(self, event: Event) -> bool {
        match self.action() {
            Action::Sink(Command::QueryState { .. }) => event is State || event is Fault,
            Action::Sink(Command::CountProcessed { .. }) => event is Processed || event is Fault,
            Action::Sink(Command::Unqueue { .. }) => event is Unqueued || event is Fault,
            Action::Sink(_) => event is Done || event is Fault,
            Action::Rewind => event is Done,
            Action::Read { .. } => event is Read,
            Action::Sleep { .. } => event is Done,
            Action::PollLooping => event is Looping,
            Action::Join => event is Done,
            Action::Detach => event is Done,
            Action::Exit => false,
        }
    }

    /// The phase that follows the phase under way once `event` has answered
    /// its step.
    ///
    /// Before the worker is on its own, a fault changes nothing: the next step
    /// follows as if the command had gone through. In the loop, a fault ends
    /// the round: the session goes on to ask for the source's state, and from
    /// a faulty answer to that it goes back to waiting. The loop is left only
    /// when the source reports `Stopped`.
    pub open spec fn next_phase(self, event: Event) -> Phase {
        match self.phase {
            Phase::Halting { retire } => Phase::Settling { retire },
            Phase::Settling { retire } => Session::rested(retire),
            Phase::Retiring => Phase::Rewinding,
            Phase::Rewinding => Phase::PrimeRead { second: false },
            Phase::PrimeRead { second } => Phase::PrimeFill {
                second,
                bytes: spec_byte_length(event->Read_0, self.chunk) as i32,
            },
            Phase::PrimeFill { second, .. } => if second {
                Phase::PrimeQueue
            } else {
                Phase::PrimeRead { second: true }
            },
            Phase::PrimeQueue => Phase::Starting,
            Phase::Starting => Phase::Detaching,
            Phase::Detaching => Phase::Waiting,
            Phase::Waiting => Phase::Polling,
            Phase::Polling => Phase::Counting,
            Phase::Counting => if event is Processed && event->Processed_0 != 0 {
                Phase::Unqueuing
            } else {
                Phase::Checking
            },
            Phase::Unqueuing => if event is Unqueued {
                Phase::Reading { buffer: event->Unqueued_0, rewound: false }
            } else {
                Phase::Checking
            },
            Phase::Reading { buffer, rewound } => if samples_taken(event->Read_0, self.chunk) == 0
                && self.looping && !rewound {
                Phase::Seeking { buffer }
            } else {
                Phase::Filling {
                    buffer,
                    bytes: spec_byte_length(event->Read_0, self.chunk) as i32,
                }
            },
            Phase::Seeking { buffer } => Phase::Reading { buffer, rewound: true },
            Phase::Filling { buffer, .. } => if event is Done {
                Phase::Queuing { buffer }
            } else {
                Phase::Checking
            },
            Phase::Queuing { .. } => Phase::Checking,
            Phase::Checking => if event == Event::State(State::Stopped) {
                Phase::Unbinding
            } else {
                Phase::Waiting
            },
            Phase::Unbinding => Phase::Finished,
            Phase::Finished => Phase::Finished,
        }
    }

    /// The looping flag once `event` has answered the step under way: the
    /// flag that a look for it found, and the old one in every other case.
    pub open spec fn next_looping(self, event: Event) -> bool {
        match event {
            Event::Looping(Some(requested)) => requested,
            _ => self.looping,
        }
    }

    /// True from the moment the session is on a worker of its own until it
    /// is over.
    pub open spec fn in_loop(self) -> bool {
        match self.phase {
            Phase::Waiting
            | Phase::Polling
            | Phase::Counting
            | Phase::Unqueuing
            | Phase::Reading { .. }
            | Phase::Seeking { .. }
            | Phase::Filling { .. }
            | Phase::Queuing { .. }
            | Phase::Checking
            | Phase::Unbinding => true,
            _ => false,
        }
    }

    /// True while the session still has to wait for the worker that was
    /// started before.
    pub open spec fn retires(self) -> bool {
        match self.phase {
            Phase::Halting { retire } => retire,
            Phase::Settling { retire } => retire,
            Phase::Retiring => true,
            _ => false,
        }
    }

    /// The buffer that the session has taken off the queue and not yet put
    /// back, if there is one.
    pub open spec fn held(self) -> Option<u32> {
        match self.phase {
            Phase::Reading { buffer, .. } => Some(buffer),
            Phase::Seeking { buffer } => Some(buffer),
            Phase::Filling { buffer, .. } => Some(buffer),
            Phase::Queuing { buffer } => Some(buffer),
            _ => None,
        }
    }

    /// The session after `event`.
    ///
    /// An event that does not answer the step under way is passed over: the
    /// session stays as it is, and its step is still owed.
    pub open spec fn next(self, event: Event) -> Session {
        if self.answers(event) {
            Session {
                looping: self.next_looping(event),
                phase: self.next_phase(event),
                ..self
            }
        } else {
            self
        }
    }
}

impl Session {
    /// The session after these events, taken in their order.
    pub open spec fn run(self, events: Seq<Event>) -> Session
        decreases events.len(),
    {
        if events.len() == 0 {
            self
        } else {
            self.run(events.drop_last()).next(events.last())
        }
    }

    /// True when each of these events, as its turn comes, answers the step
    /// that is then under way.
    pub open spec fn heeds(self, events: Seq<Event>) -> bool
        decreases events.len(),
    {
        events.len() == 0 || (self.heeds(events.drop_last()) && self.run(
            events.drop_last(),
        ).answers(events.last()))
    }
}

/// A session that can come about stays one, whatever happens next.
pub proof fn lemma_next_is_wf(session: Session, event: Event)
    requires
        session.wf(),
    ensures
        session.next(event).wf(),
{
    if session.answers(event) {
        match session.phase {
            Phase::PrimeRead { .. } | Phase::Reading { .. } => {
                let bytes = spec_byte_length(event->Read_0, session.chunk);
                assert(bytes as i32 == bytes);
                assert(bytes % 2 == 0);
            },
            _ => {},
        }
    }
}

/// A streaming session, ready to be driven.
#[derive(Debug)]
pub struct Refill {
    session: Session,
}

impl View for Refill {
    type V = Session;

    closed spec fn view(&self) -> Session {
        self.session
    }
}

impl Refill {
    #[verifier::type_invariant]
    spec fn chunk_is_valid(self) -> bool {
        self.session.wf()
    }

    /// Begins a session.
    ///
    /// With `halt` set the session first stops the source and lets it come to
    /// rest. With `retire` set it then waits for the worker that was started
    /// before. After that it rewinds the decode source.
    pub(crate) fn begin(
        source: u32,
        first: u32,
        second: u32,
        format: SampleFormat,
        rate: i32,
        chunk: i32,
        looping: bool,
        halt: bool,
        retire: bool,
    ) -> (refill: Refill)
        requires
            valid_chunk(chunk),
        ensures
            refill@ == Session::begin(
                source,
                first,
                second,
                format,
                rate,
                chunk,
                looping,
                halt,
                retire,
            ),
    {
        let phase = if halt {
            Phase::Halting { retire }
        } else if retire {
            Phase::Retiring
        } else {
            Phase::Rewinding
        };
        Refill { session: Session { source, first, second, format, rate, chunk, looping, phase } }
    }

    /// The step that is under way.
    pub fn action(&self) -> (action: Action)
        ensures
            action == self@.action(),
            self@.wf(),
    {
        proof {
            use_type_invariant(self);
        }
        let session = &self.session;
        match session.phase {
            Phase::Halting { .. } => Action::Sink(Command::Stop { source: session.source }),
            Phase::Settling { .. } => Action::Sleep { millis: SETTLE_MILLIS },
            Phase::Retiring => Action::Join,
            Phase::Rewinding => Action::Rewind,
            Phase::PrimeRead { .. } => Action::Read { samples: session.chunk },
            Phase::PrimeFill { second, bytes } => {
                let buffer = if second {
                    session.second
                } else {
                    session.first
                };
                Action::Sink(
                    Command::Fill { buffer, format: session.format, bytes, rate: session.rate },
                )
            },
            Phase::PrimeQueue => Action::Sink(
                Command::QueuePair {
                    source: session.source,
                    first: session.first,
                    second: session.second,
                },
            ),
            Phase::Starting => Action::Sink(Command::Play { source: session.source }),
            Phase::Detaching => Action::Detach,
            Phase::Waiting => Action::Sleep { millis: POLL_MILLIS },
            Phase::Polling => Action::PollLooping,
            Phase::Counting => Action::Sink(Command::CountProcessed { source: session.source }),
            Phase::Unqueuing => Action::Sink(Command::Unqueue { source: session.source }),
            Phase::Reading { .. } => Action::Read { samples: session.chunk },
            Phase::Seeking { .. } => Action::Rewind,
            Phase::Filling { buffer, bytes } => Action::Sink(
                Command::Fill { buffer, format: session.format, bytes, rate: session.rate },
            ),
            Phase::Queuing { buffer } => Action::Sink(
                Command::Queue { source: session.source, buffer },
            ),
            Phase::Checking => Action::Sink(Command::QueryState { source: session.source }),
            Phase::Unbinding => Action::Sink(Command::Bind { source: session.source, buffer: 0 }),
            Phase::Finished => Action::Exit,
        }
    }

    /// Decides whether `event` is an outcome that the step under way can have.
    pub fn answers(&self, event: Event) -> (answers: bool)
        ensures
            answers == self@.answers(event),
    {
        match self.session.phase {
            Phase::Halting { .. }
            | Phase::PrimeFill { .. }
            | Phase::PrimeQueue
            | Phase::Starting
            | Phase::Filling { .. }
            | Phase::Queuing { .. }
            | Phase::Unbinding => match event {
                Event::Done | Event::Fault => true,
                _ => false,
            },
            Phase::Settling { .. }
            | Phase::Retiring
            | Phase::Rewinding
            | Phase::Detaching
            | Phase::Waiting
            | Phase::Seeking { .. } => match event {
                Event::Done => true,
                _ => false,
            },
            Phase::PrimeRead { .. } | Phase::Reading { .. } => match event {
                Event::Read(_) => true,
                _ => false,
            },
            Phase::Polling => match event {
                Event::Looping(_) => true,
                _ => false,
            },
            Phase::Counting => match event {
                Event::Processed(_) | Event::Fault => true,
                _ => false,
            },
            Phase::Unqueuing => match event {
                Event::Unqueued(_) | Event::Fault => true,
                _ => false,
            },
            Phase::Checking => match event {
                Event::State(_) | Event::Fault => true,
                _ => false,
            },
            Phase::Finished => false,
        }
    }

    /// Takes in the outcome of the step under way and names the step after it.
    ///
    /// An event that does not answer the step under way changes nothing, and
    /// the same step comes back.
    pub fn step(&mut self, event: Event) -> (action: Action)
        ensures
            final(self)@ == old(self)@.next(event),
            action == final(self)@.action(),
    {
        proof {
            use_type_invariant(&*self);
        }
        if self.answers(event) {
            let session = &self.session;
            let chunk = session.chunk;
            let mut looping = session.looping;
            let phase = match session.phase {
                Phase::Halting { retire } => Phase::Settling { retire },
                Phase::Settling { retire } => if retire {
                    Phase::Retiring
                } else {
                    Phase::Rewinding
                },
                Phase::Retiring => Phase::Rewinding,
                Phase::Rewinding => Phase::PrimeRead { second: false },
                Phase::PrimeRead { second } => match event {
                    Event::Read(reported) => Phase::PrimeFill {
                        second,
                        bytes: byte_length(reported, chunk),
                    },
                    _ => Phase::PrimeRead { second },
                },
                Phase::PrimeFill { second, .. } => if second {
                    Phase::PrimeQueue
                } else {
                    Phase::PrimeRead { second: true }
                },
                Phase::PrimeQueue => Phase::Starting,
                Phase::Starting => Phase::Detaching,
                Phase::Detaching => Phase::Waiting,
                Phase::Waiting => Phase::Polling,
                Phase::Polling => {
                    match event {
                        Event::Looping(Some(requested)) => {
                            looping = requested;
                        },
                        _ => {},
                    }
                    Phase::Counting
                },
                Phase::Counting => match event {
                    Event::Processed(count) => if count != 0 {
                        Phase::Unqueuing
                    } else {
                        Phase::Checking
                    },
                    _ => Phase::Checking,
                },
                Phase::Unqueuing => match event {
                    Event::Unqueued(buffer) => Phase::Reading { buffer, rewound: false },
                    _ => Phase::Checking,
                },
                Phase::Reading { buffer, rewound } => match event {
                    Event::Read(reported) => {
                        let bytes = byte_length(reported, chunk);
                        if bytes == 0 && looping && !rewound {
                            Phase::Seeking { buffer }
                        } else {
                            Phase::Filling { buffer, bytes }
                        }
                    },
                    _ => Phase::Reading { buffer, rewound },
                },
                Phase::Seeking { buffer } => Phase::Reading { buffer, rewound: true },
                Phase::Filling { buffer, .. } => match event {
                    Event::Done => Phase::Queuing { buffer },
                    _ => Phase::Checking,
                },
                Phase::Queuing { .. } => Phase::Checking,
                Phase::Checking => match event {
                    Event::State(State::Stopped) => Phase::Unbinding,
                    _ => Phase::Waiting,
                },
                Phase::Unbinding => Phase::Finished,
                Phase::Finished => Phase::Finished,
            };
            let ghost before = self.session;
            let after = Session { looping, phase, ..self.session };
            proof {
                lemma_next_is_wf(before, event);
            }
            self.session = after;
        }
        self.action()
    }

    /// True once the session is over.
    pub fn is_finished(&self) -> (finished: bool)
        ensures
            finished == (self@.phase == Phase::Finished),
    {
        match self.session.phase {
            Phase::Finished => true,
            _ => false,
        }
    }

    /// The looping flag that the session goes by.
    pub fn is_looping(&self) -> (looping: bool)
        ensures
            looping == self@.looping,
    {
        self.session.looping
    }

    /// The source that the session feeds.
    pub fn source(&self) -> (source: u32)
        ensures
            source == self@.source,
    {
        self.session.source
    }

    /// The step that is under way, as a phase.
    pub fn phase(&self) -> (phase: Phase)
        ensures
            phase == self@.phase,
    {
        self.session.phase
    }
}

} // verus!
