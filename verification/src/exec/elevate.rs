//! The privilege-escalation policy.
//!
//! Whether a command is wrapped with the elevation helper depends on two
//! booleans only: whether the caller asked for elevation, and whether the
//! current process is already privileged.

use vstd::prelude::*;

verus! {

/// Elevation is applied exactly when it is asked for and the process is not
/// privileged already.
pub open spec fn needs_elevation(requested: bool, privileged: bool) -> bool {
    requested && !privileged
}

/// The program that runs another program with elevated privileges.
pub open spec fn elevation_helper() -> Seq<char> {
    "sudo"@
}

/// The switch that makes the helper read the password from its standard
/// input.
pub open spec fn elevation_switch() -> Seq<char> {
    "-S"@
}

/// What a rendered command line starts with when elevation is applied.
pub open spec fn elevation_prefix() -> Seq<char> {
    "sudo -S "@
}

/// Decides whether elevation is applied.
pub fn decide_elevation(requested: bool, privileged: bool) -> (elevate: bool)
    ensures
        elevate == needs_elevation(requested, privileged),
{
    requested && !privileged
}

/// Asks the operating system whether the current process is privileged.
///
/// Trusted: calls `is_root::is_root`, which compares the effective user id
/// with zero on Unix and reads the process token's elevation on Windows.
/// The answer depends on how the process was started, so nothing is claimed
/// about it.
#[verifier::external_body]
pub(crate) fn current_process_is_privileged() -> bool {
    is_root::is_root()
}

/// The rendered prefix is the helper and its switch, each followed by one
/// space.
pub proof fn lemma_prefix_is_helper_and_switch()
    ensures
        elevation_prefix() == elevation_helper() + seq![' '] + elevation_switch() + seq![' '],
{
    reveal_strlit("sudo");
    reveal_strlit("-S");
    reveal_strlit("sudo -S ");
    assert(elevation_prefix() =~= elevation_helper() + seq![' '] + elevation_switch() + seq![' ']);
}

/// A process that is already privileged is never elevated again, whatever
/// the caller asked for.
pub proof fn lemma_never_elevated_twice(requested: bool)
    ensures
        !needs_elevation(requested, true),
{
}

/// Nothing is elevated that did not ask for it, whoever runs it.
pub proof fn lemma_never_elevated_unasked(privileged: bool)
    ensures
        !needs_elevation(false, privileged),
{
}

} // verus!
