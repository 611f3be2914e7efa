//! A command-execution engine for package-manager subprocesses.
//!
//! A command is described by an [`exec::Cmd`], turned into a spawn
//! specification under a privilege-escalation policy, and run under one of
//! five [`exec::Mode`]s.  Everything that decides (what to spawn, what to
//! echo, what to capture, when to ask the user, what the final outcome is)
//! lives here and is verified; the caller only performs the I/O that each
//! step asks for and reports back what happened.

pub mod dispatch;
pub mod exec;
pub mod pm;
