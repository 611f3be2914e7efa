//! The process session: one child process, from the attempt to start it to
//! the outcome of its run.
//!
//! The session does no I/O.  Whoever drives it starts the child, drains its
//! output and waits for its exit, at the same time, and reports each thing
//! that happens as an [`Event`]; the session answers with the [`Action`] to
//! take.  Draining and waiting may finish in either order: the outcome is
//! handed out when both have.

use vstd::prelude::*;

use super::tee::{tee_feed, tee_in_step, tee_start, Tee, TeeView};
use super::types::{ExecError, Output, OutputView, StatusCode};

verus! {

/// Something that happened outside and is reported to the engine.
#[derive(Debug, PartialEq, Eq)]
pub enum Event {
    /// The user answered a question with this line.
    Answer(String),
    /// The child process was started.
    Spawned,
    /// The child process could not be started.
    SpawnFailed,
    /// The next chunk of the child's captured output arrived.
    Chunk(Vec<u8>),
    /// The child's captured output came to its end.
    StreamEnd,
    /// Reading the child's output, or writing to the live sink, failed.
    IoFailed,
    /// The child terminated: with an exit code, or by a signal.
    Exited(Option<StatusCode>),
    /// The child's exit status could not be obtained.
    WaitFailed,
}

/// The mathematical content of an [`Event`].
pub enum EventView {
    Answer(Seq<char>),
    Spawned,
    SpawnFailed,
    Chunk(Seq<u8>),
    StreamEnd,
    IoFailed,
    Exited(Option<StatusCode>),
    WaitFailed,
}

impl View for Event {
    type V = EventView;

    open spec fn view(&self) -> EventView {
        match self {
            Event::Answer(line) => EventView::Answer(line@),
            Event::Spawned => EventView::Spawned,
            Event::SpawnFailed => EventView::SpawnFailed,
            Event::Chunk(bytes) => EventView::Chunk(bytes@),
            Event::StreamEnd => EventView::StreamEnd,
            Event::IoFailed => EventView::IoFailed,
            Event::Exited(code) => EventView::Exited(*code),
            Event::WaitFailed => EventView::WaitFailed,
        }
    }
}

/// What the driver of a session is to do next.
#[derive(Debug, PartialEq, Eq)]
pub enum Action {
    /// Write these bytes to the live sink, then go on.
    Echo(Vec<u8>),
    /// Nothing to do: go on draining and waiting.
    Continue,
    /// The session is over, with this outcome.
    Finish(Result<Output, ExecError>),
}

/// The mathematical content of an [`Action`].
pub enum ActionView {
    Echo(Seq<u8>),
    Continue,
    Finish(Result<OutputView, ExecError>),
}

/// The mathematical content of an outcome.
pub open spec fn outcome_view(outcome: Result<Output, ExecError>) -> Result<OutputView, ExecError> {
    match outcome {
        Ok(out) => Ok(out@),
        Err(e) => Err(e),
    }
}

impl View for Action {
    type V = ActionView;

    open spec fn view(&self) -> ActionView {
        match self {
            Action::Echo(bytes) => ActionView::Echo(bytes@),
            Action::Continue => ActionView::Continue,
            Action::Finish(outcome) => ActionView::Finish(outcome_view(*outcome)),
        }
    }
}

/// How far a session has come.
#[derive(Copy, Clone, Debug, PartialEq, Eq, Structural)]
pub enum Stage {
    /// The child is being started.
    Spawning,
    /// The child runs; its output is drained and its exit awaited.
    Running,
    /// The outcome has been handed out.
    Closed,
}

/// What is known of the child's termination.
#[derive(Copy, Clone, Debug)]
pub enum Exit {
    /// The child has not terminated yet.
    Pending,
    /// The child terminated: with an exit code, or by a signal.
    Code(Option<StatusCode>),
    /// The exit status could not be obtained.
    Failed,
}

/// A process session.
pub struct Session {
    stage: Stage,
    tee: Tee,
    stream_ended: bool,
    exit: Exit,
}

/// The mathematical content of a [`Session`].
pub struct SessionView {
    pub stage: Stage,
    pub tee: TeeView,
    pub stream_ended: bool,
    pub exit: Exit,
}

impl View for Session {
    type V = SessionView;

    closed spec fn view(&self) -> SessionView {
        SessionView {
            stage: self.stage,
            tee: self.tee@,
            stream_ended: self.stream_ended,
            exit: self.exit,
        }
    }
}

/// A session whose child is about to be started.
pub open spec fn session_start(mute: bool) -> SessionView {
    SessionView { stage: Stage::Spawning, tee: tee_start(mute), stream_ended: false, exit: Exit::Pending }
}

/// The session once its outcome has been handed out: whatever was captured
/// is gone from it.
pub open spec fn session_closed(s: SessionView) -> SessionView {
    SessionView { stage: Stage::Closed, tee: tee_start(s.tee.mute), ..s }
}

/// Hands out the outcome if both the draining and the waiting are done.
/// A failed wait is an error of its own, even though all output was read.
pub open spec fn session_settle(s: SessionView) -> (SessionView, ActionView) {
    if s.stream_ended {
        match s.exit {
            Exit::Pending => (s, ActionView::Continue),
            Exit::Code(code) => (
                session_closed(s),
                ActionView::Finish(Ok(OutputView { contents: s.tee.captured, code })),
            ),
            Exit::Failed => (session_closed(s), ActionView::Finish(Err(ExecError::WaitFailed))),
        }
    } else {
        (s, ActionView::Continue)
    }
}

/// What a running session makes of an event.
pub open spec fn session_step_running(s: SessionView, e: EventView) -> (SessionView, ActionView) {
    match e {
        EventView::Chunk(bytes) => {
            if s.stream_ended {
                (s, ActionView::Continue)
            } else {
                (
                    SessionView { tee: tee_feed(s.tee, bytes), ..s },
                    if s.tee.mute {
                        ActionView::Continue
                    } else {
                        ActionView::Echo(bytes)
                    },
                )
            }
        },
        EventView::StreamEnd => {
            if s.stream_ended {
                (s, ActionView::Continue)
            } else {
                session_settle(SessionView { stream_ended: true, ..s })
            }
        },
        EventView::IoFailed => {
            if s.stream_ended {
                (s, ActionView::Continue)
            } else {
                (session_closed(s), ActionView::Finish(Err(ExecError::IoFailure)))
            }
        },
        EventView::Exited(code) => {
            if s.exit is Pending {
                session_settle(SessionView { exit: Exit::Code(code), ..s })
            } else {
                (s, ActionView::Continue)
            }
        },
        EventView::WaitFailed => {
            if s.exit is Pending {
                session_settle(SessionView { exit: Exit::Failed, ..s })
            } else {
                (s, ActionView::Continue)
            }
        },
        _ => (s, ActionView::Continue),
    }
}

/// What a session makes of an event: the state it moves to and the action
/// it asks for.  An event that does not fit the stage changes nothing.
pub open spec fn session_step(s: SessionView, e: EventView) -> (SessionView, ActionView) {
    match s.stage {
        Stage::Spawning => match e {
            EventView::Spawned => (SessionView { stage: Stage::Running, ..s }, ActionView::Continue),
            EventView::SpawnFailed => (
                session_closed(s),
                ActionView::Finish(Err(ExecError::SpawnFailed)),
            ),
            _ => (s, ActionView::Continue),
        },
        Stage::Running => session_step_running(s, e),
        Stage::Closed => (s, ActionView::Continue),
    }
}

impl Session {
    /// A session whose child is about to be started.  With `mute`, nothing
    /// of its output is echoed.
    pub fn new(mute: bool) -> (session: Session)
        ensures
            session@ == session_start(mute),
    {
        Session { stage: Stage::Spawning, tee: Tee::new(mute), stream_ended: false, exit: Exit::Pending }
    }

    /// How far the session has come.
    pub fn stage(&self) -> (stage: Stage)
        ensures
            stage == self@.stage,
    {
        self.stage
    }

    /// Whether nothing is echoed.  As in every session, what has been handed
    /// out for the live sink agrees with what has been captured.
    pub fn is_mute(&self) -> (mute: bool)
        ensures
            mute == self@.tee.mute,
            tee_in_step(self@.tee),
    {
        self.tee.is_mute()
    }

    fn close(&mut self) -> (captured: Vec<u8>)
        ensures
            final(self)@ == session_closed(old(self)@),
            captured@ == old(self)@.tee.captured,
    {
        self.stage = Stage::Closed;
        self.tee.take()
    }

    fn settle(&mut self) -> (action: Action)
        ensures
            (final(self)@, action@) == session_settle(old(self)@),
    {
        if self.stream_ended {
            match self.exit {
                Exit::Pending => Action::Continue,
                Exit::Code(code) => {
                    let contents = self.close();
                    Action::Finish(Ok(Output { contents, code }))
                },
                Exit::Failed => {
                    let _ = self.close();
                    Action::Finish(Err(ExecError::WaitFailed))
                },
            }
        } else {
            Action::Continue
        }
    }

    fn step_running(&mut self, event: Event) -> (action: Action)
        requires
            old(self)@.stage == Stage::Running,
        ensures
            (final(self)@, action@) == session_step_running(old(self)@, event@),
    {
        match event {
            Event::Chunk(bytes) => {
                if self.stream_ended {
                    Action::Continue
                } else {
                    let echo = self.tee.feed(bytes.as_slice()).is_some();
                    if echo {
                        Action::Echo(bytes)
                    } else {
                        Action::Continue
                    }
                }
            },
            Event::StreamEnd => {
                if self.stream_ended {
                    Action::Continue
                } else {
                    self.stream_ended = true;
                    self.settle()
                }
            },
            Event::IoFailed => {
                if self.stream_ended {
                    Action::Continue
                } else {
                    let _ = self.close();
                    Action::Finish(Err(ExecError::IoFailure))
                }
            },
            Event::Exited(code) => {
                match self.exit {
                    Exit::Pending => {
                        self.exit = Exit::Code(code);
                        self.settle()
                    },
                    _ => Action::Continue,
                }
            },
            Event::WaitFailed => {
                match self.exit {
                    Exit::Pending => {
                        self.exit = Exit::Failed;
                        self.settle()
                    },
                    _ => Action::Continue,
                }
            },
            _ => Action::Continue,
        }
    }

    /// Takes the next event and says what to do about it.
    pub fn step(&mut self, event: Event) -> (action: Action)
        ensures
            (final(self)@, action@) == session_step(old(self)@, event@),
    {
        match self.stage {
            Stage::Spawning => match event {
                Event::Spawned => {
                    self.stage = Stage::Running;
                    Action::Continue
                },
                Event::SpawnFailed => {
                    let _ = self.close();
                    Action::Finish(Err(ExecError::SpawnFailed))
                },
                _ => Action::Continue,
            },
            Stage::Running => self.step_running(event),
            Stage::Closed => Action::Continue,
        }
    }
}

} // verus!
