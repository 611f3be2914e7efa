//! Whole executions: what holds of every series of events that an execution
//! may be fed.

use vstd::prelude::*;

use super::cmd::{spawn_spec, CmdView};
use super::execution::{
    exec_begin,
    exec_step,
    idle_step,
    skip_step,
    Banner,
    ExecutionView,
    LaunchView,
    NextView,
    Phase,
    StepView,
};
use super::gate::{lemma_answers_differ, says_all, says_no};
use super::prompt::answer_of;
use super::session::{session_start, session_step, EventView, SessionView, Stage};
use super::tee::{stream_bytes, tee_echo};
use super::trace::{
    echo_of, lemma_live_matches_capture, lemma_session_completes, run_with_early_exit,
    run_with_late_exit, session_echoes, session_outcome, session_run,
};
use super::types::{ExecError, Mode, OutputView, StatusCode};

verus! {

/// The execution after a series of events, taken in order, and whether
/// nobody is asked any more by then.
pub open spec fn exec_run(x: ExecutionView, gate_open: bool, events: Seq<EventView>) -> (
    ExecutionView,
    bool,
)
    decreases events.len(),
{
    if events.len() == 0 {
        (x, gate_open)
    } else {
        let (before, open) = exec_run(x, gate_open, events.drop_last());
        let (after, now_open, _step) = exec_step(before, open, events.last());
        (after, now_open)
    }
}

/// The steps that a series of events is answered with, one for each event.
pub open spec fn exec_steps(x: ExecutionView, gate_open: bool, events: Seq<EventView>) -> Seq<
    StepView,
>
    decreases events.len(),
{
    if events.len() == 0 {
        Seq::empty()
    } else {
        let (before, open) = exec_run(x, gate_open, events.drop_last());
        exec_steps(x, gate_open, events.drop_last()).push(
            exec_step(before, open, events.last()).2,
        )
    }
}

/// A step that neither asks the user nor starts a process.
pub open spec fn is_quiet(step: StepView) -> bool {
    !(step.next is Ask) && !(step.next is Spawn)
}

/// An execution that is not waiting for an answer never asks the user and
/// never starts a process, whatever it is fed, and records no consent.
pub proof fn lemma_past_asking(x: ExecutionView, gate_open: bool, events: Seq<EventView>)
    requires
        x.phase != Phase::Asking,
    ensures
        exec_run(x, gate_open, events).0.phase != Phase::Asking,
        exec_run(x, gate_open, events).1 == gate_open,
        exec_steps(x, gate_open, events).len() == events.len(),
        forall|i: int|
            0 <= i < events.len() ==> is_quiet(#[trigger] exec_steps(x, gate_open, events)[i]),
    decreases events.len(),
{
    if events.len() > 0 {
        lemma_past_asking(x, gate_open, events.drop_last());
    }
}

/// An execution that is over stays over: every further event is answered
/// with the step that does nothing.
pub proof fn lemma_closed_stays_closed(x: ExecutionView, gate_open: bool, events: Seq<EventView>)
    requires
        x.phase == Phase::Closed,
    ensures
        exec_run(x, gate_open, events) == (x, gate_open),
        exec_steps(x, gate_open, events).len() == events.len(),
        forall|i: int|
            0 <= i < events.len() ==> #[trigger] exec_steps(x, gate_open, events)[i]
                == idle_step(),
    decreases events.len(),
{
    if events.len() > 0 {
        lemma_closed_stays_closed(x, gate_open, events.drop_last());
    }
}

/// Print-only mode shows the command and is done, whatever the command, the
/// privileges and the answers given before: the outcome is empty with exit
/// code zero, and no process is started, then or later.
pub proof fn lemma_print_only_never_spawns(
    cmd: CmdView,
    privileged: bool,
    gate_open: bool,
    events: Seq<EventView>,
)
    ensures
        exec_begin(cmd, Mode::PrintCmd, privileged, gate_open).1 == skip_step(
            Some(Banner::Canceled),
        ),
        exec_begin(cmd, Mode::PrintCmd, privileged, gate_open).0.phase == Phase::Closed,
        forall|i: int|
            0 <= i < events.len() ==> #[trigger] exec_steps(
                exec_begin(cmd, Mode::PrintCmd, privileged, gate_open).0,
                gate_open,
                events,
            )[i] == idle_step(),
{
    lemma_closed_stays_closed(
        exec_begin(cmd, Mode::PrintCmd, privileged, gate_open).0,
        gate_open,
        events,
    );
}

/// An answer of "no" ends the execution with the empty outcome and exit code
/// zero.  No consent is recorded, and no process is started, then or later.
pub proof fn lemma_no_skips(
    x: ExecutionView,
    gate_open: bool,
    line: Seq<char>,
    events: Seq<EventView>,
)
    requires
        x.phase == Phase::Asking,
        says_no(answer_of(line, false)),
    ensures
        exec_step(x, gate_open, EventView::Answer(line)).2 == skip_step(None),
        exec_step(x, gate_open, EventView::Answer(line)).1 == gate_open,
        exec_step(x, gate_open, EventView::Answer(line)).0.phase == Phase::Closed,
        forall|i: int|
            0 <= i < events.len() ==> #[trigger] exec_steps(
                exec_step(x, gate_open, EventView::Answer(line)).0,
                gate_open,
                events,
            )[i] == idle_step(),
{
    lemma_answers_differ();
    lemma_closed_stays_closed(
        exec_step(x, gate_open, EventView::Answer(line)).0,
        gate_open,
        events,
    );
}

/// An answer of "all" goes ahead with the command and is recorded.
pub proof fn lemma_all_opens(x: ExecutionView, gate_open: bool, line: Seq<char>)
    requires
        x.phase == Phase::Asking,
        says_all(answer_of(line, false)),
    ensures
        exec_step(x, gate_open, EventView::Answer(line)).1,
        exec_step(x, gate_open, EventView::Answer(line)).0.phase != Phase::Asking,
        !(exec_step(x, gate_open, EventView::Answer(line)).2.next is Ask),
        x.cmd.cmd.len() > 0 ==> exec_step(x, gate_open, EventView::Answer(line)).2.next is Spawn,
{
}

/// After an answer of "all" nobody is asked: the execution of a command in
/// any mode begins past the question, and never comes back to it, whatever
/// it is fed; and the answer stays recorded.  In a mode that runs the
/// command, a command with a program word is started at once.
pub proof fn lemma_open_gate_never_asks(
    cmd: CmdView,
    mode: Mode,
    privileged: bool,
    events: Seq<EventView>,
)
    ensures
        !(exec_begin(cmd, mode, privileged, true).1.next is Ask),
        mode != Mode::PrintCmd && cmd.cmd.len() > 0 ==> exec_begin(cmd, mode, privileged, true).1.next
            == NextView::Spawn(
            LaunchView {
                spec: spawn_spec(cmd, privileged),
                stderr_only: mode.recipe_of().stderr_only,
            },
        ),
        exec_run(exec_begin(cmd, mode, privileged, true).0, true, events).1,
        forall|i: int|
            0 <= i < events.len() ==> !(#[trigger] exec_steps(
                exec_begin(cmd, mode, privileged, true).0,
                true,
                events,
            )[i].next is Ask),
{
    lemma_past_asking(exec_begin(cmd, mode, privileged, true).0, true, events);
}

/// An answer of "all" stays recorded after every further event, in every
/// execution.
pub proof fn lemma_gate_opens_one_way(x: ExecutionView, events: Seq<EventView>)
    ensures
        exec_run(x, true, events).1,
    decreases events.len(),
{
    if events.len() > 0 {
        lemma_gate_opens_one_way(x, events.drop_last());
    }
}

/// The outcome that a series of events leads an execution to, if it leads to
/// one: the first that is handed out.
pub open spec fn exec_outcome(x: ExecutionView, gate_open: bool, events: Seq<EventView>) -> Option<
    Result<OutputView, ExecError>,
>
    decreases events.len(),
{
    if events.len() == 0 {
        None
    } else {
        match exec_outcome(x, gate_open, events.drop_last()) {
            Some(outcome) => Some(outcome),
            None => {
                let (before, open) = exec_run(x, gate_open, events.drop_last());
                match exec_step(before, open, events.last()).2.next {
                    NextView::Done(outcome) => Some(outcome),
                    _ => None,
                }
            },
        }
    }
}

/// Everything that an execution sends to the live sink over a series of
/// events.
pub open spec fn exec_echoes(x: ExecutionView, gate_open: bool, events: Seq<EventView>) -> Seq<u8>
    decreases events.len(),
{
    if events.len() == 0 {
        Seq::empty()
    } else {
        let (before, open) = exec_run(x, gate_open, events.drop_last());
        exec_echoes(x, gate_open, events.drop_last()) + (match exec_step(
            before,
            open,
            events.last(),
        ).2.next {
            NextView::Echo(bytes) => bytes,
            _ => Seq::empty(),
        })
    }
}

/// Once the process session is under way, the execution is what the session
/// is: it echoes what the session echoes and ends with the outcome of the
/// session.
pub proof fn lemma_execution_follows_session(
    x: ExecutionView,
    gate_open: bool,
    events: Seq<EventView>,
)
    requires
        x.phase == Phase::Session,
    ensures
        exec_outcome(x, gate_open, events) == session_outcome(x.session, events),
        exec_echoes(x, gate_open, events) == session_echoes(x.session, events),
        exec_outcome(x, gate_open, events) is None ==> exec_run(x, gate_open, events) == (
            ExecutionView { session: session_run(x.session, events), ..x },
            gate_open,
        ),
        exec_outcome(x, gate_open, events) is Some ==> exec_run(x, gate_open, events).0.phase
            == Phase::Closed,
    decreases events.len(),
{
    if events.len() > 0 {
        lemma_execution_follows_session(x, gate_open, events.drop_last());
        let before = events.drop_last();
        if exec_outcome(x, gate_open, before) is Some {
            assert(exec_echoes(x, gate_open, before) + Seq::<u8>::empty() =~= exec_echoes(
                x,
                gate_open,
                before,
            ));
            lemma_closed_session_is_silent(x.session, before, events.last());
        }
    }
}

/// After its outcome a session echoes nothing.
proof fn lemma_closed_session_is_silent(s: SessionView, events: Seq<EventView>, e: EventView)
    requires
        session_outcome(s, events) is Some,
    ensures
        echo_of(session_step(session_run(s, events), e).1) == Seq::<u8>::empty(),
        session_run(s, events).stage == Stage::Closed,
    decreases events.len(),
{
    if events.len() > 0 {
        if session_outcome(s, events.drop_last()) is Some {
            lemma_closed_session_is_silent(s, events.drop_last(), events.last());
        }
    }
}

/// A command with a program word, in a mode that runs it and does not have
/// to ask, is started at once; and if its child starts, writes its output
/// and terminates, the execution ends with all the bytes of that output in
/// order and the exit status of the child, whenever the exit is noticed.
/// What was echoed on the way is the same bytes, or nothing in a mode that
/// echoes nothing.
pub proof fn lemma_command_runs_to_its_outcome(
    cmd: CmdView,
    mode: Mode,
    privileged: bool,
    gate_open: bool,
    chunks: Seq<Seq<u8>>,
    k: int,
    code: Option<StatusCode>,
)
    requires
        cmd.cmd.len() > 0,
        mode != Mode::PrintCmd,
        mode == Mode::Prompt ==> gate_open,
        0 <= k <= chunks.len(),
    ensures
        exec_begin(cmd, mode, privileged, gate_open).1 == (StepView {
            announce: mode.recipe_of().banner,
            next: NextView::Spawn(
                LaunchView {
                    spec: spawn_spec(cmd, privileged),
                    stderr_only: mode.recipe_of().stderr_only,
                },
            ),
        }),
        exec_outcome(
            exec_begin(cmd, mode, privileged, gate_open).0,
            gate_open,
            run_with_early_exit(chunks, k, code),
        ) == Some(Ok::<OutputView, ExecError>(OutputView { contents: stream_bytes(chunks), code })),
        exec_outcome(
            exec_begin(cmd, mode, privileged, gate_open).0,
            gate_open,
            run_with_late_exit(chunks, code),
        ) == Some(Ok::<OutputView, ExecError>(OutputView { contents: stream_bytes(chunks), code })),
        exec_echoes(
            exec_begin(cmd, mode, privileged, gate_open).0,
            gate_open,
            run_with_early_exit(chunks, k, code),
        ) == tee_echo(mode.recipe_of().mute, stream_bytes(chunks)),
        exec_echoes(
            exec_begin(cmd, mode, privileged, gate_open).0,
            gate_open,
            run_with_late_exit(chunks, code),
        ) == tee_echo(mode.recipe_of().mute, stream_bytes(chunks)),
{
    let x = exec_begin(cmd, mode, privileged, gate_open).0;
    assert(x.session == session_start(mode.recipe_of().mute));
    lemma_session_completes(mode.recipe_of().mute, chunks, k, code);
    lemma_execution_follows_session(x, gate_open, run_with_early_exit(chunks, k, code));
    lemma_execution_follows_session(x, gate_open, run_with_late_exit(chunks, code));
}

/// Whatever happens to a command once its session is under way: a mode that
/// echoes nothing sends nothing to the live sink; and when any other mode
/// ends with captured output, the live sink has been sent those very bytes.
pub proof fn lemma_echo_matches_outcome(
    cmd: CmdView,
    mode: Mode,
    privileged: bool,
    gate_open: bool,
    events: Seq<EventView>,
)
    requires
        exec_begin(cmd, mode, privileged, gate_open).0.phase == Phase::Session,
    ensures
        mode.recipe_of().mute ==> exec_echoes(
            exec_begin(cmd, mode, privileged, gate_open).0,
            gate_open,
            events,
        ) == Seq::<u8>::empty(),
        !mode.recipe_of().mute ==> (exec_outcome(
            exec_begin(cmd, mode, privileged, gate_open).0,
            gate_open,
            events,
        ) matches Some(Ok(out)) ==> exec_echoes(
            exec_begin(cmd, mode, privileged, gate_open).0,
            gate_open,
            events,
        ) == out.contents),
{
    let x = exec_begin(cmd, mode, privileged, gate_open).0;
    assert(x.session == session_start(mode.recipe_of().mute));
    lemma_execution_follows_session(x, gate_open, events);
    lemma_live_matches_capture(mode.recipe_of().mute, events);
}

/// A program that cannot be started ends the execution with that error, and
/// with nothing else.
pub proof fn lemma_spawn_failure_ends(x: ExecutionView, gate_open: bool)
    requires
        x.phase == Phase::Session,
        x.session.stage == Stage::Spawning,
    ensures
        exec_step(x, gate_open, EventView::SpawnFailed).2 == (StepView {
            announce: None,
            next: NextView::Done(Err(ExecError::SpawnFailed)),
        }),
        exec_step(x, gate_open, EventView::SpawnFailed).0.phase == Phase::Closed,
{
}

} // verus!
