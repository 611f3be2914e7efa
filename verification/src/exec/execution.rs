//! The execution of one command under one mode, from the first banner to the
//! outcome.
//!
//! An [`Execution`] decides and does nothing else.  It is begun with a
//! command and a mode and answers with the first [`Step`]; the caller does
//! what the step asks for (print a banner, ask the user, start the child,
//! echo bytes), reports what happened as an [`Event`], and gets the next
//! step, until a step is `Done`.

use vstd::prelude::*;

use super::cmd::{spawn_spec, Cmd, CmdView, SpawnSpec, SpawnSpecView};
use super::elevate::current_process_is_privileged;
use super::gate::{open_after, reply_to, Gate, Reply};
use super::prompt::answer_of;
use super::session::{
    outcome_view, session_start, session_step, Action, ActionView, Event, EventView, Session,
    SessionView,
};
use super::types::{default_output, ExecError, Mode, Output, OutputView};

verus! {

/// The word shown in front of a command line.
#[derive(Copy, Clone, Debug, PartialEq, Eq, Structural)]
pub enum Banner {
    /// The command is shown and not run.
    Canceled,
    /// The command waits for the user's consent.
    Pending,
    /// The command is about to run.
    Running,
}

/// What a mode amounts to.
#[derive(Copy, Clone, Debug, PartialEq, Eq, Structural)]
pub struct Recipe {
    /// Whether the user is asked for consent.
    pub prompts: bool,
    /// Whether a process is started at all.
    pub spawns: bool,
    /// Whether only the standard error stream is captured, and not the
    /// standard output with it.
    pub stderr_only: bool,
    /// Whether nothing of what is captured is echoed live.
    pub mute: bool,
    /// The banner that goes with the command line when the mode goes ahead.
    pub banner: Option<Banner>,
}

impl Mode {
    /// The recipe of each mode.
    ///
    /// Only the prompt mode asks.  Every mode but print-only starts a
    /// process.  The check-err and prompt modes capture the error stream
    /// alone.  The mute mode echoes nothing (and print-only has nothing to
    /// echo).  Print-only shows the command as canceled, the mute mode does
    /// not show it, every other mode shows it as running.
    pub open spec fn recipe_of(self) -> Recipe {
        Recipe {
            prompts: self == Mode::Prompt,
            spawns: self != Mode::PrintCmd,
            stderr_only: self == Mode::CheckErr || self == Mode::Prompt,
            mute: self == Mode::Mute || self == Mode::PrintCmd,
            banner: if self == Mode::PrintCmd {
                Some(Banner::Canceled)
            } else if self == Mode::Mute {
                None
            } else {
                Some(Banner::Running)
            },
        }
    }

    /// The recipe of this mode.
    pub fn recipe(self) -> (recipe: Recipe)
        ensures
            recipe == self.recipe_of(),
    {
        match self {
            Mode::PrintCmd => Recipe {
                prompts: false,
                spawns: false,
                stderr_only: false,
                mute: true,
                banner: Some(Banner::Canceled),
            },
            Mode::Mute => Recipe {
                prompts: false,
                spawns: true,
                stderr_only: false,
                mute: true,
                banner: None,
            },
            Mode::CheckAll => Recipe {
                prompts: false,
                spawns: true,
                stderr_only: false,
                mute: false,
                banner: Some(Banner::Running),
            },
            Mode::CheckErr => Recipe {
                prompts: false,
                spawns: true,
                stderr_only: true,
                mute: false,
                banner: Some(Banner::Running),
            },
            Mode::Prompt => Recipe {
                prompts: true,
                spawns: true,
                stderr_only: true,
                mute: false,
                banner: Some(Banner::Running),
            },
        }
    }
}

/// How to start the child process.
#[derive(Debug, PartialEq, Eq)]
pub struct Launch {
    /// The program and its arguments.
    pub spec: SpawnSpec,
    /// Whether only the standard error stream is captured (and echoed to the
    /// standard error), or the standard output with it (echoed to the
    /// standard output).
    pub stderr_only: bool,
}

/// The mathematical content of a [`Launch`].
pub struct LaunchView {
    pub spec: SpawnSpecView,
    pub stderr_only: bool,
}

impl View for Launch {
    type V = LaunchView;

    open spec fn view(&self) -> LaunchView {
        LaunchView { spec: self.spec@, stderr_only: self.stderr_only }
    }
}

/// What the caller is to do next.
#[derive(Debug, PartialEq, Eq)]
pub enum Next {
    /// Ask the user whether to proceed, read a line, report it as an answer.
    Ask,
    /// Start the child process, report whether that worked.
    Spawn(Launch),
    /// Write these bytes to the live sink, then go on draining and waiting.
    Echo(Vec<u8>),
    /// Nothing to do: go on with whatever is under way.
    Continue,
    /// The execution is over, with this outcome.
    Done(Result<Output, ExecError>),
}

/// The mathematical content of a [`Next`].
pub enum NextView {
    Ask,
    Spawn(LaunchView),
    Echo(Seq<u8>),
    Continue,
    Done(Result<OutputView, ExecError>),
}

impl View for Next {
    type V = NextView;

    open spec fn view(&self) -> NextView {
        match self {
            Next::Ask => NextView::Ask,
            Next::Spawn(launch) => NextView::Spawn(launch@),
            Next::Echo(bytes) => NextView::Echo(bytes@),
            Next::Continue => NextView::Continue,
            Next::Done(outcome) => NextView::Done(outcome_view(*outcome)),
        }
    }
}

/// One step of an execution: a banner to show with the command line, if
/// any, and then what to do.
#[derive(Debug, PartialEq, Eq)]
pub struct Step {
    pub announce: Option<Banner>,
    pub next: Next,
}

/// The mathematical content of a [`Step`].
pub struct StepView {
    pub announce: Option<Banner>,
    pub next: NextView,
}

impl View for Step {
    type V = StepView;

    open spec fn view(&self) -> StepView {
        StepView { announce: self.announce, next: self.next@ }
    }
}

/// Where an execution stands.
#[derive(Copy, Clone, Debug, PartialEq, Eq, Structural)]
pub enum Phase {
    /// The user has been asked and has not given an answer that counts.
    Asking,
    /// The process session is under way.
    Session,
    /// The outcome has been handed out.
    Closed,
}

/// The execution of one command under one mode.
pub struct Execution {
    cmd: Cmd,
    mode: Mode,
    privileged: bool,
    phase: Phase,
    session: Session,
}

/// The mathematical content of an [`Execution`].
pub struct ExecutionView {
    pub cmd: CmdView,
    pub mode: Mode,
    pub privileged: bool,
    pub phase: Phase,
    pub session: SessionView,
}

impl View for Execution {
    type V = ExecutionView;

    closed spec fn view(&self) -> ExecutionView {
        ExecutionView {
            cmd: self.cmd@,
            mode: self.mode,
            privileged: self.privileged,
            phase: self.phase,
            session: self.session@,
        }
    }
}

/// The step that does nothing.
pub open spec fn idle_step() -> StepView {
    StepView { announce: None, next: NextView::Continue }
}

/// The step that ends an execution which was skipped or only shown: nothing
/// captured, exit code zero.
pub open spec fn skip_step(announce: Option<Banner>) -> StepView {
    StepView { announce, next: NextView::Done(Ok(default_output())) }
}

/// What a session's action is as a step of the execution.
pub open spec fn step_of(action: ActionView) -> StepView {
    StepView {
        announce: None,
        next: match action {
            ActionView::Echo(bytes) => NextView::Echo(bytes),
            ActionView::Continue => NextView::Continue,
            ActionView::Finish(outcome) => NextView::Done(outcome),
        },
    }
}

/// Goes ahead with the command: it is turned into a spawn specification and
/// the session begins, unless the command has no program word.
pub open spec fn exec_launch(x: ExecutionView, announce: Option<Banner>) -> (
    ExecutionView,
    StepView,
) {
    if x.cmd.cmd.len() == 0 {
        (
            ExecutionView { phase: Phase::Closed, ..x },
            StepView { announce, next: NextView::Done(Err(ExecError::InvalidCommand)) },
        )
    } else {
        (
            ExecutionView { phase: Phase::Session, ..x },
            StepView {
                announce,
                next: NextView::Spawn(
                    LaunchView {
                        spec: spawn_spec(x.cmd, x.privileged),
                        stderr_only: x.mode.recipe_of().stderr_only,
                    },
                ),
            },
        )
    }
}

/// The beginning of an execution: the state it starts in and its first step.
///
/// A mode that does not spawn shows the command and is done.  A mode that
/// prompts asks first, unless the user has answered "all" before.  Every
/// other case goes ahead at once.
pub open spec fn exec_begin(cmd: CmdView, mode: Mode, privileged: bool, gate_open: bool) -> (
    ExecutionView,
    StepView,
) {
    let recipe = mode.recipe_of();
    let x = ExecutionView {
        cmd,
        mode,
        privileged,
        phase: Phase::Closed,
        session: session_start(recipe.mute),
    };
    if !recipe.spawns {
        (x, skip_step(recipe.banner))
    } else if recipe.prompts && !gate_open {
        (
            ExecutionView { phase: Phase::Asking, ..x },
            StepView { announce: Some(Banner::Pending), next: NextView::Ask },
        )
    } else {
        exec_launch(x, recipe.banner)
    }
}

/// What an execution makes of an event: the state it moves to, whether
/// nobody is asked any more afterwards, and the step it asks for.  An event
/// that does not fit the phase changes nothing.
pub open spec fn exec_step(x: ExecutionView, gate_open: bool, e: EventView) -> (
    ExecutionView,
    bool,
    StepView,
) {
    match x.phase {
        Phase::Asking => match e {
            EventView::Answer(line) => {
                let answer = answer_of(line, false);
                let now_open = open_after(gate_open, answer);
                match reply_to(answer) {
                    Reply::Again => (x, now_open, StepView { announce: None, next: NextView::Ask }),
                    Reply::Decline => (
                        ExecutionView { phase: Phase::Closed, ..x },
                        now_open,
                        skip_step(None),
                    ),
                    Reply::Proceed => {
                        let (launched, step) = exec_launch(x, x.mode.recipe_of().banner);
                        (launched, now_open, step)
                    },
                }
            },
            _ => (x, gate_open, idle_step()),
        },
        Phase::Session => {
            let (session, action) = session_step(x.session, e);
            (
                ExecutionView {
                    session,
                    phase: if action is Finish {
                        Phase::Closed
                    } else {
                        Phase::Session
                    },
                    ..x
                },
                gate_open,
                step_of(action),
            )
        },
        Phase::Closed => (x, gate_open, idle_step()),
    }
}

impl Execution {
    /// Where the execution stands.
    pub fn phase(&self) -> (phase: Phase)
        ensures
            phase == self@.phase,
    {
        self.phase
    }

    /// The command line to show with a banner.
    pub fn command_line(&self) -> (line: String)
        ensures
            line@ == super::cmd::command_line(self@.cmd, self@.privileged),
    {
        self.cmd.to_string_as(self.privileged)
    }

    fn launch(&mut self, announce: Option<Banner>) -> (step: Step)
        ensures
            (final(self)@, step@) == exec_launch(old(self)@, announce),
    {
        match self.cmd.clone().build_as(self.privileged) {
            Ok(spec) => {
                self.phase = Phase::Session;
                let stderr_only = self.mode.recipe().stderr_only;
                Step { announce, next: Next::Spawn(Launch { spec, stderr_only }) }
            },
            Err(e) => {
                self.phase = Phase::Closed;
                Step { announce, next: Next::Done(Err(e)) }
            },
        }
    }

    /// Begins the execution of `cmd` under `mode`, for a process that is
    /// privileged or not as `privileged` says.  In a mode that prompts, the
    /// user is asked unless `gate` holds an earlier answer of "all".
    pub fn begin(cmd: Cmd, mode: Mode, privileged: bool, gate: &Gate) -> (begun: (Execution, Step))
        ensures
            (begun.0@, begun.1@) == exec_begin(cmd@, mode, privileged, gate.is_open()),
    {
        let recipe = mode.recipe();
        let mut x = Execution {
            cmd,
            mode,
            privileged,
            phase: Phase::Closed,
            session: Session::new(recipe.mute),
        };
        if !recipe.spawns {
            let step = Step { announce: recipe.banner, next: Next::Done(Ok(Output::default())) };
            (x, step)
        } else if recipe.prompts && !gate.always_yes() {
            x.phase = Phase::Asking;
            (x, Step { announce: Some(Banner::Pending), next: Next::Ask })
        } else {
            let step = x.launch(recipe.banner);
            (x, step)
        }
    }

    /// Takes the next event and says what to do about it.  An answer of
    /// "all" is recorded in `gate`.
    pub fn step(&mut self, gate: &mut Gate, event: Event) -> (step: Step)
        ensures
            (final(self)@, final(gate).is_open(), step@) == exec_step(
                old(self)@,
                old(gate).is_open(),
                event@,
            ),
    {
        match self.phase {
            Phase::Asking => match event {
                Event::Answer(line) => {
                    match gate.hear(line.as_str()) {
                        Reply::Again => Step { announce: None, next: Next::Ask },
                        Reply::Decline => {
                            self.phase = Phase::Closed;
                            Step { announce: None, next: Next::Done(Ok(Output::default())) }
                        },
                        Reply::Proceed => {
                            let banner = self.mode.recipe().banner;
                            self.launch(banner)
                        },
                    }
                },
                _ => Step { announce: None, next: Next::Continue },
            },
            Phase::Session => {
                let action = self.session.step(event);
                let next = match action {
                    Action::Echo(bytes) => Next::Echo(bytes),
                    Action::Continue => Next::Continue,
                    Action::Finish(outcome) => {
                        self.phase = Phase::Closed;
                        Next::Done(outcome)
                    },
                };
                Step { announce: None, next }
            },
            Phase::Closed => Step { announce: None, next: Next::Continue },
        }
    }
}

impl Cmd {
    /// Begins the execution of the command under `mode`, asking the operating
    /// system whether the current process is privileged.  The exact behavior
    /// depends on the mode; see [`Mode`].
    pub fn exec(self, mode: Mode, gate: &Gate) -> (begun: (Execution, Step))
        ensures
            (begun.0@, begun.1@) == exec_begin(self@, mode, true, gate.is_open()) || (
                begun.0@,
                begun.1@,
            ) == exec_begin(self@, mode, false, gate.is_open()),
    {
        let privileged = current_process_is_privileged();
        Execution::begin(self, mode, privileged, gate)
    }
}

} // verus!
