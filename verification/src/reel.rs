//! A decode source as a session sees it, and what a session makes of one.
//!
//! Nothing here runs. A [`Reel`] says how a sequential reader over a stream of
//! a known length answers the steps of a session, so that what the session
//! does with such a reader can be stated and proved.

use vstd::prelude::*;
use crate::format::SAMPLE_BYTES;
use crate::refill::{Action, Event, Phase, Session};

verus! {

/// A stream of `total` samples, of which `position` have been read.
pub struct Reel {
    /// The samples in the whole stream.
    pub total: int,
    /// The samples that lie behind the reader.
    pub position: int,
}

impl Reel {
    /// True when the position lies within the stream.
    pub open spec fn wf(self) -> bool {
        0 <= self.position <= self.total
    }

    /// The samples that a read of up to `samples` delivers: what was asked
    /// for, or what is left if that is less, and nothing where nothing was
    /// asked for.
    pub open spec fn delivers(self, samples: i32) -> int {
        if samples <= 0 {
            0
        } else if samples <= self.total - self.position {
            samples as int
        } else {
            self.total - self.position
        }
    }

    /// The reads that still deliver samples, each asking for `chunk`.
    pub open spec fn reads_left(self, chunk: i32) -> int {
        (self.total - self.position + chunk - 1) / (chunk as int)
    }

    /// The reel after it has served `action`: further on by what a read
    /// delivers, back at the first sample after a rewind, and as before
    /// after every other step.
    pub open spec fn after(self, action: Action) -> Reel {
        match action {
            Action::Read { samples } => Reel {
                position: self.position + self.delivers(samples),
                ..self
            },
            Action::Rewind => Reel { position: 0, ..self },
            _ => self,
        }
    }

    /// True when `event` is how the reel answers `action`. A read is answered
    /// by the count of what it delivers. Steps that are not reads are not the
    /// reel's to answer, and every event passes.
    pub open spec fn answers(self, action: Action, event: Event) -> bool {
        action matches Action::Read { samples } ==> event == Event::Read(
            self.delivers(samples) as i64,
        )
    }
}

impl Session {
    /// The reel after the session, reading from it, has gone through these
    /// events.
    pub open spec fn reel_after(self, reel: Reel, events: Seq<Event>) -> Reel
        decreases events.len(),
    {
        if events.len() == 0 {
            reel
        } else {
            self.reel_after(reel, events.drop_last()).after(
                self.run(events.drop_last()).action(),
            )
        }
    }

    /// True when these events are what the session can get while it reads
    /// from `reel`: each answers the step under way, and each answer to a
    /// read is the reel's.
    pub open spec fn fed_by(self, reel: Reel, events: Seq<Event>) -> bool
        decreases events.len(),
    {
        events.len() == 0 || {
            &&& self.fed_by(reel, events.drop_last())
            &&& self.run(events.drop_last()).answers(events.last())
            &&& self.reel_after(reel, events.drop_last()).answers(
                self.run(events.drop_last()).action(),
                events.last(),
            )
        }
    }

    /// The number of reads among the steps that these events answer.
    pub open spec fn reads(self, events: Seq<Event>) -> int
        decreases events.len(),
    {
        if events.len() == 0 {
            0
        } else {
            self.reads(events.drop_last()) + if self.run(events.drop_last()).action() is Read {
                1int
            } else {
                0int
            }
        }
    }

    /// True when the session, reading from `reel`, is not about to load an
    /// empty buffer, and reads from the first sample if it has just sent the
    /// reel back.
    pub open spec fn lively(self, reel: Reel) -> bool {
        match self.phase {
            Phase::Reading { rewound, .. } => rewound ==> reel.position == 0,
            Phase::Filling { bytes, .. } => bytes > 0,
            _ => true,
        }
    }
}

/// One read takes one off the reads that are left, until none is left. None
/// is left exactly when the reel is at its end, and from there a read
/// delivers nothing.
pub proof fn lemma_read_counts_down(reel: Reel, chunk: i32)
    requires
        reel.wf(),
        chunk > 0,
    ensures
        reel.after(Action::Read { samples: chunk }).wf(),
        reel.reads_left(chunk) >= 0,
        reel.reads_left(chunk) == 0 <==> reel.position == reel.total,
        reel.reads_left(chunk) == 0 <==> reel.delivers(chunk) == 0,
        reel.after(Action::Read { samples: chunk }).reads_left(chunk) == if reel.reads_left(chunk)
            == 0 {
            0
        } else {
            reel.reads_left(chunk) - 1
        },
{
    let left = reel.total - reel.position;
    let size = chunk as int;
    let next = reel.after(Action::Read { samples: chunk });
    let next_left = next.total - next.position;
    if left == 0 {
        assert((0 + size - 1) / size == 0) by (nonlinear_arith)
            requires
                size > 0,
        ;
        assert(next_left == 0);
    } else if left <= size {
        assert((left + size - 1) / size == 1) by (nonlinear_arith)
            requires
                0 < left <= size,
        ;
        assert((0 + size - 1) / size == 0) by (nonlinear_arith)
            requires
                size > 0,
        ;
        assert(next_left == 0);
    } else {
        assert(next_left == left - size);
        assert((left + size - 1) / size == (left - size + size - 1) / size + 1 && (left - size
            + size - 1) / size >= 1) by (nonlinear_arith)
            requires
                left > size > 0,
        ;
    }
}

/// A stream that is read without looping runs dry for good.
///
/// Let a session in the loop that does not loop, and is not asked to, read
/// from a reel. Then the reel only ever moves forward, and each read of the
/// session takes one off the reads that still deliver samples, until none is
/// left: from then on the reel is at its end, and every buffer that the
/// session loads is empty.
pub proof fn lemma_unlooped_stream_runs_dry(session: Session, reel: Reel, events: Seq<Event>)
    requires
        session.wf(),
        session.in_loop(),
        !session.looping,
        reel.wf(),
        forall|i: int| 0 <= i < events.len() ==> events[i] != Event::Looping(Some(true)),
        session.fed_by(reel, events),
    ensures
        session.run(events).wf(),
        session.run(events).in_loop() || session.run(events).phase == Phase::Finished,
        !session.run(events).looping,
        session.reel_after(reel, events).wf(),
        session.reel_after(reel, events).total == reel.total,
        session.reel_after(reel, events).position >= reel.position,
        session.reel_after(reel, events).reads_left(session.chunk) == if session.reads(events)
            >= reel.reads_left(session.chunk) {
            0
        } else {
            reel.reads_left(session.chunk) - session.reads(events)
        },
        session.reads(events) >= 0,
    decreases events.len(),
{
    lemma_read_counts_down(reel, session.chunk);
    if events.len() > 0 {
        let before = events.drop_last();
        lemma_unlooped_stream_runs_dry(session, reel, before);
        crate::refill::lemma_next_is_wf(session.run(before), events.last());
        crate::laws::lemma_run_keeps_settings(session, before);
        lemma_read_counts_down(session.reel_after(reel, before), session.chunk);
    }
}

/// At the end of the stream, a session that does not loop loads nothing into
/// the buffer that it holds, and puts the buffer back as it is.
pub proof fn lemma_dry_reel_loads_nothing(session: Session, reel: Reel, buffer: u32, event: Event)
    requires
        session.wf(),
        !session.looping,
        session.phase == (Phase::Reading { buffer, rewound: false }),
        reel.wf(),
        reel.position == reel.total,
        reel.answers(session.action(), event),
        session.answers(event),
    ensures
        session.next(event).phase == (Phase::Filling { buffer, bytes: 0 }),
        reel.after(session.action()) == reel,
{
}

/// A stream that is read with looping never runs dry.
///
/// Let a session in the loop that loops, and is not asked to stop looping,
/// read from a reel that holds samples. Then the session never loads an
/// empty buffer: where a read delivers nothing, the reel is sent back to its
/// first sample, and the read that follows delivers.
pub proof fn lemma_looped_stream_never_runs_dry(session: Session, reel: Reel, events: Seq<Event>)
    requires
        session.wf(),
        session.in_loop(),
        session.looping,
        session.lively(reel),
        reel.wf(),
        reel.total > 0,
        forall|i: int| 0 <= i < events.len() ==> events[i] != Event::Looping(Some(false)),
        session.fed_by(reel, events),
    ensures
        session.run(events).wf(),
        session.run(events).in_loop() || session.run(events).phase == Phase::Finished,
        session.run(events).looping,
        session.run(events).lively(session.reel_after(reel, events)),
        session.reel_after(reel, events).wf(),
        session.reel_after(reel, events).total == reel.total,
    decreases events.len(),
{
    if events.len() > 0 {
        let before = events.drop_last();
        lemma_looped_stream_never_runs_dry(session, reel, before);
        crate::refill::lemma_next_is_wf(session.run(before), events.last());
        crate::laws::lemma_run_keeps_settings(session, before);
        let at = session.run(before);
        let fed = session.reel_after(reel, before);
        match at.phase {
            Phase::Reading { .. } => {
                let taken = fed.delivers(at.chunk);
                assert(events.last() == Event::Read(taken as i64));
                assert(SAMPLE_BYTES * taken == (SAMPLE_BYTES * taken) as i32);
            },
            _ => {},
        }
    }
}

/// The end of the stream, with looping: the read that delivers nothing sends
/// the reel back to its first sample, and the buffer is loaded from there.
pub proof fn lemma_looped_reel_wraps(session: Session, reel: Reel, buffer: u32)
    requires
        session.wf(),
        session.looping,
        session.phase == (Phase::Reading { buffer, rewound: false }),
        reel.wf(),
        reel.total > 0,
        reel.position == reel.total,
    ensures
        ({
            let seeking = session.next(Event::Read(reel.delivers(session.chunk) as i64));
            let reading = seeking.next(Event::Done);
            let rewound = reel.after(session.action()).after(seeking.action());
            let filling = reading.next(Event::Read(rewound.delivers(session.chunk) as i64));
            &&& seeking.action() == Action::Rewind
            &&& rewound.position == 0
            &&& filling.phase == (Phase::Filling {
                buffer,
                bytes: (SAMPLE_BYTES * rewound.delivers(session.chunk)) as i32,
            })
            &&& rewound.delivers(session.chunk) > 0
        }),
{
}

/// A restart reads the stream from its first sample, wherever the reel was
/// left: the two buffers are primed with the first two chunks of the stream.
pub proof fn lemma_restart_reads_from_the_first_sample(session: Session, reel: Reel)
    requires
        session.wf(),
        session.phase == Phase::Rewinding,
        reel.wf(),
    ensures
        ({
            let rewound = reel.after(session.action());
            let first = rewound.delivers(session.chunk);
            let reading = session.next(Event::Done);
            let loading = reading.next(Event::Read(first as i64));
            let onward = rewound.after(reading.action());
            let second = onward.delivers(session.chunk);
            let reading_on = loading.next(Event::Done);
            let loading_on = reading_on.next(Event::Read(second as i64));
            &&& rewound.position == 0
            &&& first == if reel.total < session.chunk {
                reel.total
            } else {
                session.chunk as int
            }
            &&& loading.phase == (Phase::PrimeFill {
                second: false,
                bytes: (SAMPLE_BYTES * first) as i32,
            })
            &&& onward.position == first
            &&& loading_on.phase == (Phase::PrimeFill {
                second: true,
                bytes: (SAMPLE_BYTES * second) as i32,
            })
        }),
{
}

} // verus!
