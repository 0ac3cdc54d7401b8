//! What holds of streams and sessions, whatever they are given.

use vstd::prelude::*;
use crate::command::Command;
use crate::format::{samples_taken, spec_byte_length, valid_chunk};
use crate::looping::sent;
use crate::metadata::{StreamInfo, Tags};
use crate::music::{Music, Plan, Release, Stream};
use crate::refill::{Action, Event, Phase, Session, POLL_MILLIS, SETTLE_MILLIS};
use crate::states::{State, Transport};

verus! {

/// The events up to the `count`-th lead to the session that the events up to
/// the one before lead to, moved on by the `count`-th event; and a session
/// that heeds some events heeds the first `count` of them.
pub proof fn lemma_run_prefix(session: Session, events: Seq<Event>, count: int)
    requires
        0 <= count <= events.len(),
    ensures
        session.heeds(events) ==> session.heeds(events.take(count)),
        count > 0 ==> session.run(events.take(count)) == session.run(events.take(count - 1)).next(
            events[count - 1],
        ),
        count > 0 && session.heeds(events) ==> session.run(events.take(count - 1)).answers(
            events[count - 1],
        ),
        session.run(events.take(0)) == session,
    decreases events.len() - count,
{
    assert(events.take(events.len() as int) =~= events);
    if count < events.len() {
        lemma_run_prefix(session, events, count + 1);
        assert(events.take(count + 1).drop_last() =~= events.take(count));
    }
    if count > 0 {
        let upto = events.take(count);
        assert(upto.drop_last() =~= events.take(count - 1));
        assert(upto.last() == events[count - 1]);
        assert(session.run(upto) == session.run(upto.drop_last()).next(upto.last()));
        if session.heeds(events) {
            assert(session.heeds(upto));
            assert(session.run(upto.drop_last()).answers(upto.last()));
        }
    }
}

/// Events move a session from phase to phase and may change its looping
/// flag. They change nothing else.
pub proof fn lemma_run_keeps_settings(session: Session, events: Seq<Event>)
    ensures
        session.run(events).at(session.phase) == (Session {
            looping: session.run(events).looping,
            ..session
        }),
    decreases events.len(),
{
    if events.len() > 0 {
        lemma_run_keeps_settings(session, events.drop_last());
    }
}

/// A session that can come about is still one after any events.
pub proof fn lemma_run_is_wf(session: Session, events: Seq<Event>)
    requires
        session.wf(),
    ensures
        session.run(events).wf(),
    decreases events.len(),
{
    if events.len() > 0 {
        lemma_run_is_wf(session, events.drop_last());
        crate::refill::lemma_next_is_wf(session.run(events.drop_last()), events.last());
    }
}

/// A file with one or two channels, opened while the backend reports no
/// error, gives a stream, and no other file does. The stream does not loop
/// and has no worker.
pub proof fn lemma_open_gives_a_resting_stream(
    info: StreamInfo,
    tags: Tags,
    source_id: u32,
    buffer_ids: [u32; 2],
)
    ensures
        Music::spec_new(Some((info, tags)), source_id, buffer_ids, None) is Ok <==> info.channels
            == 1 || info.channels == 2,
        Music::spec_new(Some((info, tags)), source_id, buffer_ids, None) matches Ok(stream) ==> {
            &&& stream.source == source_id
            &&& stream.first == buffer_ids[0]
            &&& stream.second == buffer_ids[1]
            &&& stream.info == info
            &&& stream.tags == tags
            &&& !stream.looping
            &&& !stream.worker
        },
{
}

/// A stream that has not been played before is started by `play` without
/// delay. The session rewinds the decode source, reads and loads the first
/// buffer, reads and loads the second, queues both and starts the source:
/// after six answered steps, none of which is a wait, the step under way is
/// the command to play, which takes a source from `Initial` to `Playing`.
pub proof fn lemma_first_play_starts_source(stream: Stream, events: Seq<Event>)
    requires
        !stream.worker,
        events.len() == 6,
        stream.session(State::Initial).heeds(events),
    ensures
        stream.plan(State::Initial) == Plan::Restart(stream.session(State::Initial)),
        stream.played(State::Initial).worker,
        forall|count: int|
            0 <= count <= 6 ==> !(#[trigger] stream.session(State::Initial).run(
                events.take(count),
            ).action() is Sleep),
        stream.session(State::Initial).run(events).action() == Action::Sink(
            Command::Play { source: stream.source },
        ),
        (Command::Play { source: stream.source }).spec_transport() == Some(Transport::Play),
        State::Initial.spec_after(Transport::Play) == State::Playing,
{
    let session = stream.session(State::Initial);
    lemma_run_prefix(session, events, 0);
    lemma_run_prefix(session, events, 1);
    lemma_run_prefix(session, events, 2);
    lemma_run_prefix(session, events, 3);
    lemma_run_prefix(session, events, 4);
    lemma_run_prefix(session, events, 5);
    lemma_run_prefix(session, events, 6);
    assert(events.take(6) =~= events);
    assert(session.run(events.take(1)).phase == (Phase::PrimeRead { second: false }));
    assert(session.run(events.take(2)).phase is PrimeFill);
    assert(session.run(events.take(3)).phase == (Phase::PrimeRead { second: true }));
    assert(session.run(events.take(4)).phase is PrimeFill);
    assert(session.run(events.take(5)).phase == Phase::PrimeQueue);
    assert(session.run(events.take(6)).phase == Phase::Starting);
}

/// What the two buffers are primed with: the first buffer takes what the
/// first read delivered, the second what the second read delivered, and the
/// first is queued ahead of the second.
pub proof fn lemma_priming_fills_in_order(
    session: Session,
    first_read: i64,
    first_fill: Event,
    second_read: i64,
    second_fill: Event,
)
    requires
        session.wf(),
        session.phase == (Phase::PrimeRead { second: false }),
        first_fill == Event::Done || first_fill == Event::Fault,
        second_fill == Event::Done || second_fill == Event::Fault,
    ensures
        ({
            let loading = session.next(Event::Read(first_read));
            let reading = loading.next(first_fill);
            let loading_again = reading.next(Event::Read(second_read));
            let queueing = loading_again.next(second_fill);
            &&& loading.action() == Action::Sink(
                session.fill(session.first, spec_byte_length(first_read, session.chunk) as i32),
            )
            &&& reading.action() == (Action::Read { samples: session.chunk })
            &&& loading_again.action() == Action::Sink(
                session.fill(session.second, spec_byte_length(second_read, session.chunk) as i32),
            )
            &&& queueing.action() == Action::Sink(
                Command::QueuePair {
                    source: session.source,
                    first: session.first,
                    second: session.second,
                },
            )
        }),
{
}

/// Pausing takes a playing source to `Paused`. `play` then asks for one
/// command and nothing else: no session, so no seek and no new worker. That
/// command takes the source back to `Playing`, and the stream is as it was.
pub proof fn lemma_pause_then_resume(stream: Stream)
    ensures
        (Command::Pause { source: stream.source }).spec_transport() == Some(Transport::Pause),
        State::Playing.spec_after(Transport::Pause) == State::Paused,
        stream.plan(State::Paused) == Plan::Resume(Command::Play { source: stream.source }),
        stream.played(State::Paused) == stream,
        (Command::Play { source: stream.source }).spec_transport() == Some(Transport::Play),
        State::Paused.spec_after(Transport::Play) == State::Playing,
{
}

/// Stopping takes a source to `Stopped` from every state but `Initial`.
/// `play` then asks for a session that goes by the looping flag as the
/// stream holds it, and that sends the decode source back to its first frame
/// before anything is read. Only the wait for the worker that was started
/// before, where there is one, comes ahead of that.
pub proof fn lemma_stop_then_restart(stream: Stream, state: State)
    requires
        state != State::Initial,
    ensures
        (Command::Stop { source: stream.source }).spec_transport() == Some(Transport::Stop),
        state.spec_after(Transport::Stop) == State::Stopped,
        ({
            let session = stream.session(State::Stopped);
            let rewinding = if stream.worker {
                session.next(Event::Done)
            } else {
                session
            };
            &&& stream.plan(State::Stopped) == Plan::Restart(session)
            &&& session.looping == stream.looping
            &&& stream.worker ==> session.action() == Action::Join
            &&& rewinding.action() == Action::Rewind
            &&& rewinding.next(Event::Done).action() == (Action::Read { samples: stream.chunk })
        }),
{
}

/// `play` on a playing source starts over as well, but stops the source and
/// lets it come to rest first: stop, wait, and only then rewind. Where a
/// worker was started before, the worker is waited for in between.
pub proof fn lemma_restart_while_playing(stream: Stream, stopped: Event)
    requires
        stopped == Event::Done || stopped == Event::Fault,
    ensures
        ({
            let halting = stream.session(State::Playing);
            let settling = halting.next(stopped);
            let settled = settling.next(Event::Done);
            let rewinding = if stream.worker {
                settled.next(Event::Done)
            } else {
                settled
            };
            &&& stream.plan(State::Playing) == Plan::Restart(halting)
            &&& halting.action() == Action::Sink(Command::Stop { source: stream.source })
            &&& settling.action() == (Action::Sleep { millis: SETTLE_MILLIS })
            &&& stream.worker ==> settled.action() == Action::Join
            &&& rewinding.action() == Action::Rewind
        }),
{
}

/// A stream has one worker at a time, and its decode source one user: where
/// a worker was started before, the session that `play` asks for waits for
/// it. With the source stopped, that wait is the first step of the session.
pub proof fn lemma_restart_retires_the_worker(stream: Stream, state: State)
    requires
        state != State::Paused,
    ensures
        stream.session(state).retires() == stream.worker,
        stream.worker && state != State::Playing ==> stream.session(state).action()
            == Action::Join,
{
}

/// A session that has to wait for the worker that was started before does
/// not touch the decode source, and does not move to a worker of its own,
/// until it has waited. It asks for that wait once and never again.
pub proof fn lemma_worker_is_retired_first(session: Session, event: Event)
    ensures
        session.retires() ==> !(session.action() is Rewind) && !(session.action() is Read) && !(
        session.action() is Detach),
        session.action() is Join <==> session.phase == Phase::Retiring,
        session.next(event).retires() ==> session.retires(),
        session.phase == Phase::Retiring ==> !session.next(Event::Done).retires(),
        session.action() is Join && session.answers(event) ==> session.next(event).action()
            == Action::Rewind,
{
}

/// The session that `play` asks for is one that can come about, whatever the
/// stream, as long as its chunk size is valid.
pub proof fn lemma_plan_is_wf(stream: Stream, state: State)
    requires
        valid_chunk(stream.chunk),
    ensures
        stream.session(state).wf(),
{
}

/// In the loop, the order of the steps is fixed: wait out the poll interval,
/// look for a looping request, count the played buffers, and with none
/// played, ask for the state. So the looping flag is looked for once in
/// every round.
pub proof fn lemma_idle_round(session: Session, request: Option<bool>, count: Event)
    requires
        session.phase == Phase::Waiting,
        count == Event::Processed(0) || count == Event::Fault,
    ensures
        ({
            let polling = session.next(Event::Done);
            let counting = polling.next(Event::Looping(request));
            let checking = counting.next(count);
            &&& session.action() == (Action::Sleep { millis: POLL_MILLIS })
            &&& polling.action() == Action::PollLooping
            &&& counting.action() == Action::Sink(
                Command::CountProcessed { source: session.source },
            )
            &&& counting.looping == session.next_looping(Event::Looping(request))
            &&& checking.action() == Action::Sink(Command::QueryState { source: session.source })
        }),
{
}

/// The buffer that comes off the queue is the buffer that is loaded and the
/// buffer that goes back on the queue, with what was read in between and
/// with nothing else.
pub proof fn lemma_refill_keeps_the_buffer(
    session: Session,
    played: i32,
    buffer: u32,
    reported: i64,
)
    requires
        session.wf(),
        session.phase == Phase::Counting,
        played != 0,
        !session.looping || samples_taken(reported, session.chunk) != 0,
    ensures
        ({
            let unqueuing = session.next(Event::Processed(played));
            let reading = unqueuing.next(Event::Unqueued(buffer));
            let filling = reading.next(Event::Read(reported));
            let queuing = filling.next(Event::Done);
            let checking = queuing.next(Event::Done);
            &&& unqueuing.action() == Action::Sink(Command::Unqueue { source: session.source })
            &&& reading.action() == (Action::Read { samples: session.chunk })
            &&& filling.action() == Action::Sink(
                session.fill(buffer, spec_byte_length(reported, session.chunk) as i32),
            )
            &&& queuing.action() == Action::Sink(Command::Queue { source: session.source, buffer })
            &&& checking.action() == Action::Sink(Command::QueryState { source: session.source })
        }),
{
}

/// A session has one buffer off the queue at most. It takes a buffer off
/// only while it holds none, and a buffer that it holds stays with it until
/// the session puts it back, or gives the round up over a fault. A session
/// never releases a buffer or the source.
pub proof fn lemma_one_buffer_at_a_time(session: Session, event: Event)
    ensures
        session.action() == Action::Sink(Command::Unqueue { source: session.source })
            ==> session.held() is None,
        session.held() is None && session.next(event).held() is Some ==> {
            &&& session.phase == Phase::Unqueuing
            &&& event == Event::Unqueued(session.next(event).held()->0)
        },
        session.held() is Some ==> {
            ||| session.next(event).held() == session.held()
            ||| session.next(event).phase == Phase::Checking && (session.phase is Queuing
                || session.phase is Filling && event == Event::Fault)
        },
        session.phase is Queuing ==> session.action() == Action::Sink(
            Command::Queue { source: session.source, buffer: session.held()->0 },
        ),
        !(session.action() matches Action::Sink(Command::DeleteBuffers { .. })),
        !(session.action() matches Action::Sink(Command::DeleteSource { .. })),
{
}

/// A session that does not loop, and is not asked to, never sends the decode
/// source back once it is in the loop: the stream is read forward only, and
/// the session still does not loop afterwards.
pub proof fn lemma_unlooped_session_reads_forward(session: Session, events: Seq<Event>)
    requires
        session.wf(),
        session.in_loop(),
        !session.looping,
        forall|i: int| 0 <= i < events.len() ==> events[i] != Event::Looping(Some(true)),
    ensures
        forall|count: int|
            0 <= count <= events.len() ==> !(#[trigger] session.run(events.take(count)).action()
                is Rewind),
        !session.run(events).looping,
{
    lemma_unlooped_stays_unlooped(session, events);
    assert forall|count: int| 0 <= count <= events.len() implies !(#[trigger] session.run(
        events.take(count),
    ).action() is Rewind) by {
        lemma_unlooped_stays_unlooped(session, events.take(count));
    }
}

/// A session in the loop that does not loop, and is not asked to, is still
/// in the loop or over, and still does not loop, after any events.
pub proof fn lemma_unlooped_stays_unlooped(session: Session, events: Seq<Event>)
    requires
        session.wf(),
        session.in_loop(),
        !session.looping,
        forall|i: int| 0 <= i < events.len() ==> events[i] != Event::Looping(Some(true)),
    ensures
        session.run(events).wf(),
        session.run(events).in_loop() || session.run(events).phase == Phase::Finished,
        !session.run(events).looping,
    decreases events.len(),
{
    if events.len() > 0 {
        lemma_unlooped_stays_unlooped(session, events.drop_last());
        crate::refill::lemma_next_is_wf(session.run(events.drop_last()), events.last());
    }
}

/// Without looping, a read that delivers nothing is not repeated: the buffer
/// is loaded with no bytes and goes back on the queue as it is.
pub proof fn lemma_unlooped_end_of_stream(session: Session, buffer: u32, reported: i64)
    requires
        session.wf(),
        !session.looping,
        session.phase == (Phase::Reading { buffer, rewound: false }),
        samples_taken(reported, session.chunk) == 0,
    ensures
        ({
            let filling = session.next(Event::Read(reported));
            let queuing = filling.next(Event::Done);
            &&& filling.action() == Action::Sink(session.fill(buffer, 0))
            &&& queuing.action() == Action::Sink(Command::Queue { source: session.source, buffer })
        }),
{
}

/// With looping, a read that delivers nothing sends the decode source back
/// to its first frame, and the buffer is loaded with what the read after
/// that delivers. The decode source is sent back once per buffer and no
/// more, so a stream that holds nothing cannot hold the session up.
pub proof fn lemma_looped_session_wraps(
    session: Session,
    buffer: u32,
    ended: i64,
    restarted: i64,
)
    requires
        session.wf(),
        session.looping,
        session.phase == (Phase::Reading { buffer, rewound: false }),
        samples_taken(ended, session.chunk) == 0,
    ensures
        ({
            let seeking = session.next(Event::Read(ended));
            let reading = seeking.next(Event::Done);
            let filling = reading.next(Event::Read(restarted));
            let queuing = filling.next(Event::Done);
            &&& seeking.action() == Action::Rewind
            &&& reading.action() == (Action::Read { samples: session.chunk })
            &&& filling.action() == Action::Sink(
                session.fill(buffer, spec_byte_length(restarted, session.chunk) as i32),
            )
            &&& queuing.action() == Action::Sink(Command::Queue { source: session.source, buffer })
        }),
{
}

/// Once it is in the loop, a session never tells the source to stop or to
/// pause, and it leaves the loop for one reason only: the source reported
/// `Stopped`.
pub proof fn lemma_loop_ends_only_when_source_stopped(session: Session, event: Event)
    requires
        session.in_loop(),
    ensures
        session.action() != Action::Sink(Command::Stop { source: session.source }),
        session.action() != Action::Sink(Command::Pause { source: session.source }),
        session.next(event).in_loop() || session.next(event).phase == Phase::Finished,
        session.phase != Phase::Unbinding && session.next(event).phase == Phase::Unbinding ==> {
            &&& session.phase == Phase::Checking
            &&& event == Event::State(State::Stopped)
        },
        session.next(event).phase == Phase::Finished ==> session.phase == Phase::Unbinding,
{
}

/// Of two looping requests made one after the other, the second is the one
/// that counts. The stream holds it at once. Where a worker was started, the
/// second request is what waits in the slot, whatever waited there before,
/// and the session goes by it from its next look at the slot.
pub proof fn lemma_last_looping_request_wins(
    stream: Stream,
    waiting: Option<bool>,
    session: Session,
    first: bool,
    last: bool,
)
    requires
        session.phase == Phase::Polling,
    ensures
        stream.with_looping(first).with_looping(last).looping == last,
        stream.worker ==> stream.with_looping(first).request(last) == Some(last),
        sent(sent(waiting, first), last) == Some(last),
        session.next(Event::Looping(sent(sent(waiting, first), last))).looping == last,
        session.next(Event::Looping(None)).looping == session.looping,
{
}

/// The number of answered steps that a session in the loop is from its end
/// at most, once its source is stopped.
pub open spec fn countdown(phase: Phase) -> nat {
    match phase {
        Phase::Waiting => 11,
        Phase::Polling => 10,
        Phase::Counting => 9,
        Phase::Unqueuing => 8,
        Phase::Reading { rewound, .. } => if rewound {
            5
        } else {
            7
        },
        Phase::Seeking { .. } => 6,
        Phase::Filling { .. } => 4,
        Phase::Queuing { .. } => 3,
        Phase::Checking => 2,
        Phase::Unbinding => 1,
        _ => 0,
    }
}

/// True when, each time that the session asks for the state of the source
/// in the course of these events, the answer is `Stopped`.
pub open spec fn stopped_throughout(session: Session, events: Seq<Event>) -> bool {
    forall|i: int|
        0 <= i < events.len() && (#[trigger] session.run(events.take(i))).phase == Phase::Checking
            ==> events[i] == Event::State(State::Stopped)
}

/// Each answered step brings a session in the loop nearer to its end, if
/// the source is found stopped when the session asks.
pub proof fn lemma_stopped_source_counts_down(session: Session, event: Event)
    requires
        session.wf(),
        session.in_loop(),
        session.answers(event),
        session.phase == Phase::Checking ==> event == Event::State(State::Stopped),
    ensures
        countdown(session.next(event).phase) < countdown(session.phase),
        session.next(event).in_loop() || session.next(event).phase == Phase::Finished,
{
}

/// A worker leaves soon after its source was stopped. From wherever it is in
/// the loop, it is over after eleven answered steps at most, and it does not
/// wait again on the way: only the wait that it may be in the middle of is
/// left to pass.
pub proof fn lemma_stopped_source_ends_session(session: Session, events: Seq<Event>)
    requires
        session.wf(),
        session.in_loop(),
        session.heeds(events),
        stopped_throughout(session, events),
    ensures
        events.len() + countdown(session.run(events).phase) <= countdown(session.phase) <= 11,
        session.run(events).in_loop() || session.run(events).phase == Phase::Finished,
        forall|count: int|
            1 <= count <= events.len() ==> !(#[trigger] session.run(events.take(count)).action()
                is Sleep),
        session.run(events).phase == Phase::Finished <==> !exists|event: Event|
            session.run(events).answers(event),
    decreases events.len(),
{
    assert(events.take(events.len() as int) =~= events);
    let end = session.run(events);
    if events.len() > 0 {
        let before = events.drop_last();
        assert forall|i: int|
            0 <= i < before.len() && (#[trigger] session.run(before.take(i))).phase
                == Phase::Checking implies before[i] == Event::State(State::Stopped) by {
            assert(before.take(i) =~= events.take(i));
        }
        lemma_stopped_source_ends_session(session, before);
        lemma_run_is_wf(session, before);
        assert(before =~= events.take(events.len() - 1));
        lemma_stopped_source_counts_down(session.run(before), events.last());
        assert forall|count: int| 1 <= count <= events.len() implies !(#[trigger] session.run(
            events.take(count),
        ).action() is Sleep) by {
            if count < events.len() {
                assert(events.take(count) =~= before.take(count));
            }
        }
    }
    if end.phase != Phase::Finished {
        let witness = match end.phase {
            Phase::Reading { .. } => Event::Read(0),
            Phase::Polling => Event::Looping(None),
            Phase::Checking | Phase::Counting | Phase::Unqueuing => Event::Fault,
            _ => Event::Done,
        };
        assert(end.answers(witness));
    }
}

/// Taking a stream down stops the source first, waits for the worker where
/// one was started, and releases nothing before that: after the wait, the
/// buffers come off the source, and both buffers and the source are
/// released, each once.
pub proof fn lemma_teardown_joins_before_release(stream: Stream)
    ensures
        ({
            let steps = stream.teardown();
            let freeing = steps.len() - 3;
            &&& steps.len() == if stream.worker {
                5int
            } else {
                4int
            }
            &&& steps[0] == Release::Sink(Command::Stop { source: stream.source })
            &&& stream.worker ==> steps[1] == Release::Join
            &&& forall|i: int| 0 <= i < steps.len() && steps[i] == Release::Join ==> i < freeing
            &&& steps[freeing] == Release::Sink(Command::Bind { source: stream.source, buffer: 0 })
            &&& steps[freeing + 1] == Release::Sink(
                Command::DeleteBuffers { first: stream.first, second: stream.second },
            )
            &&& steps[freeing + 2] == Release::Sink(Command::DeleteSource { source: stream.source })
        }),
{
}

} // verus!
