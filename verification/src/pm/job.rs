//! A job: one command, and how its run is to be handled.

use vstd::prelude::*;

use crate::exec::cmd::{Cmd, CmdView};

verus! {

/// The settings under which operations are carried out.
#[derive(Copy, Clone, Debug, PartialEq, Eq, Structural)]
pub struct Config {
    /// Whether commands are only shown, and not run.
    pub dry_run: bool,
}

/// How the run of a command is to be handled.
#[derive(Debug, PartialEq, Eq)]
pub enum Handling {
    /// Run it and let its output through.
    Plain,
    /// Run it and leave the asking to the package manager itself, which
    /// does not ask when given these flags.
    NativePrompt { no_confirm: Vec<String> },
    /// Run it silently, then show those lines of its output that match every
    /// pattern.  With `announce`, the command line is shown first.
    Filter { patterns: Vec<String>, announce: bool },
}

/// The mathematical content of a [`Handling`].
pub enum HandlingView {
    Plain,
    NativePrompt { no_confirm: Seq<Seq<char>> },
    Filter { patterns: Seq<Seq<char>>, announce: bool },
}

impl View for Handling {
    type V = HandlingView;

    open spec fn view(&self) -> HandlingView {
        match self {
            Handling::Plain => HandlingView::Plain,
            Handling::NativePrompt { no_confirm } => HandlingView::NativePrompt {
                no_confirm: no_confirm.deep_view(),
            },
            Handling::Filter { patterns, announce } => HandlingView::Filter {
                patterns: patterns.deep_view(),
                announce: *announce,
            },
        }
    }
}

/// One command, and how its run is to be handled.
#[derive(Debug, PartialEq, Eq)]
pub struct Job {
    pub cmd: Cmd,
    pub handling: Handling,
}

/// The mathematical content of a [`Job`].
pub struct JobView {
    pub cmd: CmdView,
    pub handling: HandlingView,
}

impl View for Job {
    type V = JobView;

    open spec fn view(&self) -> JobView {
        JobView { cmd: self.cmd@, handling: self.handling@ }
    }
}

} // verus!
