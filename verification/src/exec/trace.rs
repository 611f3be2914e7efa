//! Whole runs of a session: what a series of events leads to.
//!
//! The laws here speak of every series of events, and so of every way in
//! which the draining of the output and the waiting for the exit can
//! interleave.

use vstd::prelude::*;

use super::session::{session_start, session_step, ActionView, EventView, Exit, SessionView, Stage};
use super::tee::{lemma_feed_keeps_step, stream_bytes, tee_echo, tee_feed_all, tee_in_step, TeeView};
use super::types::{ExecError, OutputView, StatusCode};

verus! {

/// The bytes that an action sends to the live sink.
pub open spec fn echo_of(action: ActionView) -> Seq<u8> {
    match action {
        ActionView::Echo(bytes) => bytes,
        _ => Seq::empty(),
    }
}

/// The session after a series of events, taken in order.
pub open spec fn session_run(s: SessionView, events: Seq<EventView>) -> SessionView
    decreases events.len(),
{
    if events.len() == 0 {
        s
    } else {
        session_step(session_run(s, events.drop_last()), events.last()).0
    }
}

/// Everything that a series of events sends to the live sink.
pub open spec fn session_echoes(s: SessionView, events: Seq<EventView>) -> Seq<u8>
    decreases events.len(),
{
    if events.len() == 0 {
        Seq::empty()
    } else {
        session_echoes(s, events.drop_last()) + echo_of(
            session_step(session_run(s, events.drop_last()), events.last()).1,
        )
    }
}

/// The outcome that a series of events leads to, if it leads to one: the
/// first that is handed out.
pub open spec fn session_outcome(s: SessionView, events: Seq<EventView>) -> Option<
    Result<OutputView, ExecError>,
>
    decreases events.len(),
{
    if events.len() == 0 {
        None
    } else {
        match session_outcome(s, events.drop_last()) {
            Some(outcome) => Some(outcome),
            None => match session_step(session_run(s, events.drop_last()), events.last()).1 {
                ActionView::Finish(outcome) => Some(outcome),
                _ => None,
            },
        }
    }
}

/// The events of a stream of chunks arriving one by one.
pub open spec fn chunk_events(chunks: Seq<Seq<u8>>) -> Seq<EventView> {
    Seq::new(chunks.len(), |i: int| EventView::Chunk(chunks[i]))
}

/// A closed session stays closed, asks for nothing and hands out nothing.
pub proof fn lemma_closed_is_final(s: SessionView, events: Seq<EventView>)
    requires
        s.stage == Stage::Closed,
    ensures
        session_run(s, events) == s,
        session_echoes(s, events) == Seq::<u8>::empty(),
        session_outcome(s, events) is None,
    decreases events.len(),
{
    if events.len() > 0 {
        lemma_closed_is_final(s, events.drop_last());
        assert(Seq::<u8>::empty() + Seq::<u8>::empty() =~= Seq::<u8>::empty());
    }
}

/// What holds of a session after any series of events from its start.
spec fn trace_inv(mute: bool, events: Seq<EventView>) -> bool {
    let start = session_start(mute);
    let s = session_run(start, events);
    let echoed = session_echoes(start, events);
    &&& s.tee.mute == mute
    &&& (s.stage == Stage::Closed) == (session_outcome(start, events) is Some)
    &&& s.stage != Stage::Closed ==> s.tee.echoed == echoed && tee_in_step(s.tee)
    &&& s.stage == Stage::Spawning ==> s == start
    &&& session_outcome(start, events) matches Some(Ok(out)) ==> echoed == tee_echo(
        mute,
        out.contents,
    )
    &&& mute ==> echoed == Seq::<u8>::empty()
}

proof fn lemma_trace_inv(mute: bool, events: Seq<EventView>)
    ensures
        trace_inv(mute, events),
    decreases events.len(),
{
    let start = session_start(mute);
    if events.len() == 0 {
        assert(tee_in_step(start.tee));
    } else {
        let before = events.drop_last();
        lemma_trace_inv(mute, before);
        let s = session_run(start, before);
        let e = events.last();
        let (next, action) = session_step(s, e);
        let echoed = session_echoes(start, before);
        assert(echoed + Seq::<u8>::empty() =~= echoed);
        if s.stage == Stage::Running {
            match e {
                EventView::Chunk(bytes) => {
                    if !s.stream_ended {
                        lemma_feed_keeps_step(s.tee, bytes);
                    }
                },
                _ => {},
            }
        }
    }
}

/// The live sink and the capture never diverge.  Whatever the events and
/// their order: a muted session sends nothing to the live sink; and when a
/// session that is not muted hands out captured output, the live sink has
/// been sent those very bytes, no more and no fewer.
pub proof fn lemma_live_matches_capture(mute: bool, events: Seq<EventView>)
    ensures
        mute ==> session_echoes(session_start(mute), events) == Seq::<u8>::empty(),
        !mute ==> (session_outcome(session_start(mute), events) matches Some(Ok(out))
            ==> session_echoes(session_start(mute), events) == out.contents),
{
    lemma_trace_inv(mute, events);
}

/// A session hands out at most one outcome, and is closed from then on.
pub proof fn lemma_outcome_closes(mute: bool, events: Seq<EventView>)
    ensures
        (session_run(session_start(mute), events).stage == Stage::Closed) == (session_outcome(
            session_start(mute),
            events,
        ) is Some),
{
    lemma_trace_inv(mute, events);
}

/// A run of one event is one step.
pub proof fn lemma_run_one(s: SessionView, e: EventView)
    ensures
        session_run(s, seq![e]) == session_step(s, e).0,
        session_echoes(s, seq![e]) == echo_of(session_step(s, e).1),
        session_outcome(s, seq![e]) == (match session_step(s, e).1 {
            ActionView::Finish(outcome) => Some(outcome),
            _ => None,
        }),
{
    let one = seq![e];
    let none = one.drop_last();
    assert(none =~= Seq::<EventView>::empty());
    assert(one.last() == e);
    assert(session_run(s, none) == s);
    assert(session_echoes(s, none) == Seq::<u8>::empty());
    assert(session_outcome(s, none) is None);
    assert(Seq::<u8>::empty() + echo_of(session_step(s, e).1) =~= echo_of(session_step(s, e).1));
}

/// A run can be cut in two: the second part goes on where the first ended.
pub proof fn lemma_run_in_two(s: SessionView, first: Seq<EventView>, second: Seq<EventView>)
    ensures
        session_run(s, first + second) == session_run(session_run(s, first), second),
        session_echoes(s, first + second) == session_echoes(s, first) + session_echoes(
            session_run(s, first),
            second,
        ),
        session_outcome(s, first + second) == (match session_outcome(s, first) {
            Some(outcome) => Some(outcome),
            None => session_outcome(session_run(s, first), second),
        }),
    decreases second.len(),
{
    if second.len() == 0 {
        assert(first + second =~= first);
        assert(session_echoes(s, first) + Seq::<u8>::empty() =~= session_echoes(s, first));
    } else {
        lemma_run_in_two(s, first, second.drop_last());
        assert((first + second).drop_last() =~= first + second.drop_last());
        assert((first + second).last() == second.last());
        let mid = session_run(s, first);
        let a = session_echoes(s, first);
        let b = session_echoes(mid, second.drop_last());
        let c = echo_of(session_step(session_run(mid, second.drop_last()), second.last()).1);
        assert((a + b) + c =~= a + (b + c));
    }
}

/// Feeding a tee two streams in a row is feeding it their concatenation.
pub proof fn lemma_feed_all_adds(t: TeeView, chunks: Seq<Seq<u8>>)
    ensures
        tee_feed_all(t, chunks).mute == t.mute,
        tee_feed_all(t, chunks).captured == t.captured + stream_bytes(chunks),
        tee_feed_all(t, chunks).echoed == t.echoed + tee_echo(t.mute, stream_bytes(chunks)),
    decreases chunks.len(),
{
    if chunks.len() == 0 {
        assert(t.captured + Seq::<u8>::empty() =~= t.captured);
        assert(t.echoed + Seq::<u8>::empty() =~= t.echoed);
    } else {
        lemma_feed_all_adds(t, chunks.drop_last());
        let rest = stream_bytes(chunks.drop_last());
        let last = chunks.last();
        assert((t.captured + rest) + last =~= t.captured + (rest + last));
        if t.mute {
            assert(t.echoed + Seq::<u8>::empty() + Seq::<u8>::empty() =~= t.echoed + Seq::<
                u8,
            >::empty());
        } else {
            assert((t.echoed + rest) + last =~= t.echoed + (rest + last));
        }
    }
}

/// The bytes of two streams in a row.
pub proof fn lemma_stream_bytes_adds(first: Seq<Seq<u8>>, second: Seq<Seq<u8>>)
    ensures
        stream_bytes(first + second) == stream_bytes(first) + stream_bytes(second),
    decreases second.len(),
{
    if second.len() == 0 {
        assert(first + second =~= first);
        assert(stream_bytes(first) + Seq::<u8>::empty() =~= stream_bytes(first));
    } else {
        lemma_stream_bytes_adds(first, second.drop_last());
        assert((first + second).drop_last() =~= first + second.drop_last());
        let a = stream_bytes(first);
        let b = stream_bytes(second.drop_last());
        assert((a + b) + second.last() =~= a + (b + second.last()));
    }
}

/// While the child runs and its output has not ended, chunks are captured
/// one after the other, echoed unless muted, and no outcome is handed out.
pub proof fn lemma_run_chunks(s: SessionView, chunks: Seq<Seq<u8>>)
    requires
        s.stage == Stage::Running,
        !s.stream_ended,
    ensures
        session_run(s, chunk_events(chunks)) == (SessionView {
            tee: tee_feed_all(s.tee, chunks),
            ..s
        }),
        session_echoes(s, chunk_events(chunks)) == tee_echo(s.tee.mute, stream_bytes(chunks)),
        session_outcome(s, chunk_events(chunks)) is None,
    decreases chunks.len(),
{
    let events = chunk_events(chunks);
    if chunks.len() == 0 {
    } else {
        lemma_run_chunks(s, chunks.drop_last());
        lemma_feed_all_adds(s.tee, chunks.drop_last());
        assert(events.drop_last() =~= chunk_events(chunks.drop_last()));
        assert(events.last() == EventView::Chunk(chunks.last()));
        if s.tee.mute {
            assert(Seq::<u8>::empty() + Seq::<u8>::empty() =~= Seq::<u8>::empty());
        }
    }
}

/// The run of a child whose exit is noticed after `k` of its chunks have
/// been read, and before its output ends.
pub open spec fn run_with_early_exit(
    chunks: Seq<Seq<u8>>,
    k: int,
    code: Option<StatusCode>,
) -> Seq<EventView> {
    seq![EventView::Spawned] + chunk_events(chunks.take(k)) + seq![EventView::Exited(code)]
        + chunk_events(chunks.skip(k)) + seq![EventView::StreamEnd]
}

/// The run of a child whose exit is noticed only after its output has ended.
pub open spec fn run_with_late_exit(chunks: Seq<Seq<u8>>, code: Option<StatusCode>) -> Seq<
    EventView,
> {
    seq![EventView::Spawned] + chunk_events(chunks) + seq![
        EventView::StreamEnd,
        EventView::Exited(code),
    ]
}

/// A child that starts, writes its chunks and terminates leads to one
/// outcome, whenever its exit is noticed: all the bytes of its output in
/// order, with its exit status.  The outcome is handed out at the last
/// event, when both the output has ended and the exit is known, and not
/// before.  The live sink has then been sent the same bytes, or nothing if
/// muted.
pub proof fn lemma_session_completes(
    mute: bool,
    chunks: Seq<Seq<u8>>,
    k: int,
    code: Option<StatusCode>,
)
    requires
        0 <= k <= chunks.len(),
    ensures
        session_outcome(session_start(mute), run_with_early_exit(chunks, k, code)) == Some(
            Ok::<OutputView, ExecError>(OutputView { contents: stream_bytes(chunks), code }),
        ),
        session_outcome(session_start(mute), run_with_late_exit(chunks, code)) == Some(
            Ok::<OutputView, ExecError>(OutputView { contents: stream_bytes(chunks), code }),
        ),
        session_outcome(session_start(mute), run_with_early_exit(chunks, k, code).drop_last())
            is None,
        session_outcome(session_start(mute), run_with_late_exit(chunks, code).drop_last())
            is None,
        session_echoes(session_start(mute), run_with_early_exit(chunks, k, code)) == tee_echo(
            mute,
            stream_bytes(chunks),
        ),
        session_echoes(session_start(mute), run_with_late_exit(chunks, code)) == tee_echo(
            mute,
            stream_bytes(chunks),
        ),
{
    let start = session_start(mute);
    let spawned = seq![EventView::Spawned];
    let running = SessionView { stage: Stage::Running, ..start };
    lemma_run_one(start, EventView::Spawned);
    assert(session_run(start, spawned) == running);
    let total = stream_bytes(chunks);
    let expected = Some(Ok::<OutputView, ExecError>(OutputView { contents: total, code }));

    // The exit is noticed last.
    {
        let all = chunk_events(chunks);
        lemma_run_in_two(start, spawned, all);
        lemma_run_chunks(running, chunks);
        lemma_feed_all_adds(running.tee, chunks);
        let drained = session_run(start, spawned + all);
        assert(drained.tee.captured =~= total);
        let end = seq![EventView::StreamEnd];
        lemma_run_one(drained, EventView::StreamEnd);
        lemma_run_in_two(start, spawned + all, end);
        let ended = session_run(start, spawned + all + end);
        assert(ended == SessionView { stream_ended: true, ..drained });
        let exit = seq![EventView::Exited(code)];
        lemma_run_one(ended, EventView::Exited(code));
        lemma_run_in_two(start, spawned + all + end, exit);
        let late = run_with_late_exit(chunks, code);
        assert(late =~= spawned + all + end + exit);
        assert(late.drop_last() =~= spawned + all + end);
        assert(session_echoes(start, late) =~= tee_echo(mute, total));
    }

    // The exit is noticed while the output is still being read.
    {
        let head = chunk_events(chunks.take(k));
        let tail = chunk_events(chunks.skip(k));
        lemma_run_in_two(start, spawned, head);
        lemma_run_chunks(running, chunks.take(k));
        lemma_feed_all_adds(running.tee, chunks.take(k));
        let half = session_run(start, spawned + head);
        let exit = seq![EventView::Exited(code)];
        lemma_run_one(half, EventView::Exited(code));
        lemma_run_in_two(start, spawned + head, exit);
        let exited = session_run(start, spawned + head + exit);
        assert(exited == SessionView { exit: Exit::Code(code), ..half });
        lemma_run_in_two(start, spawned + head + exit, tail);
        lemma_run_chunks(exited, chunks.skip(k));
        lemma_feed_all_adds(exited.tee, chunks.skip(k));
        lemma_stream_bytes_adds(chunks.take(k), chunks.skip(k));
        assert(chunks.take(k) + chunks.skip(k) =~= chunks);
        let drained = session_run(start, spawned + head + exit + tail);
        assert(drained.tee.captured =~= total);
        let end = seq![EventView::StreamEnd];
        lemma_run_one(drained, EventView::StreamEnd);
        lemma_run_in_two(start, spawned + head + exit + tail, end);
        let early = run_with_early_exit(chunks, k, code);
        assert(early =~= spawned + head + exit + tail + end);
        assert(early.drop_last() =~= spawned + head + exit + tail);
        assert(session_echoes(start, early) =~= tee_echo(mute, total));
    }
}

} // verus!
