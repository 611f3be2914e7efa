//! Plain data shared by every part of the engine.

use vstd::prelude::*;

verus! {

/// Different ways in which a command shall be dealt with.
#[derive(Copy, Clone, Debug, PartialEq, Eq, Structural)]
pub enum Mode {
    /// Solely print out the command that should be executed, and stop.
    PrintCmd,
    /// Silently collect all the `stdout`/`stderr` combined. Print nothing.
    Mute,
    /// Print out the command which should be executed, run it and collect its
    /// `stdout`/`stderr` combined.
    CheckAll,
    /// Print out the command which should be executed, run it and collect its
    /// `stderr`.
    CheckErr,
    /// Like `CheckErr`, but ask for confirmation before proceeding.
    Prompt,
}

/// The exit code of a process.
pub type StatusCode = i32;

/// The ways in which running a command can fail.
#[derive(Copy, Clone, Debug, PartialEq, Eq, Structural)]
pub enum ExecError {
    /// The command has no program to run.
    InvalidCommand,
    /// The program could not be launched.
    SpawnFailed,
    /// Reading the child's output, or echoing it, failed midway.
    IoFailure,
    /// The exit status of the child could not be obtained.
    WaitFailed,
}

/// Representation of what a command returns.
#[derive(Debug, PartialEq, Eq)]
pub struct Output {
    /// The captured `stdout`, sometimes mixed with captured `stderr`.
    pub contents: Vec<u8>,
    /// `Some(n)` for exit code, `None` for signals.
    pub code: Option<StatusCode>,
}

/// The mathematical content of an [`Output`].
pub struct OutputView {
    pub contents: Seq<u8>,
    pub code: Option<StatusCode>,
}

impl View for Output {
    type V = OutputView;

    open spec fn view(&self) -> OutputView {
        OutputView { contents: self.contents@, code: self.code }
    }
}

/// The outcome of an execution that was skipped or only printed: nothing
/// captured, exit code zero.
pub open spec fn default_output() -> OutputView {
    OutputView { contents: Seq::empty(), code: Some(0i32) }
}

impl Default for Output {
    fn default() -> (out: Self)
        ensures
            out@ == default_output(),
    {
        Output { contents: Vec::new(), code: Some(0) }
    }
}

impl Clone for Output {
    fn clone(&self) -> (out: Self)
        ensures
            out@ == self@,
    {
        Output { contents: self.contents.clone(), code: self.code }
    }
}

} // verus!
