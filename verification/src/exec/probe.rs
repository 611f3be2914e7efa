//! Judging whether an executable is there, from what a look at the file
//! system found.

use vstd::prelude::*;

verus! {

/// Whether an executable counts as present: a path was given and something
/// exists there, or a name was given and was found on the search path.
pub open spec fn counts_as_exe(
    name: Seq<char>,
    path: Seq<char>,
    exists_at_path: bool,
    found_by_name: bool,
) -> bool {
    (path.len() > 0 && exists_at_path) || (name.len() > 0 && found_by_name)
}

/// Check if an executable exists by name or by path, given whether something
/// exists at `path` and whether `name` was found on the search path.  To
/// check by one parameter only, pass `""` as another: what was found for an
/// empty parameter does not count.
pub fn is_exe(name: &str, path: &str, exists_at_path: bool, found_by_name: bool) -> (present: bool)
    ensures
        present == counts_as_exe(name@, path@, exists_at_path, found_by_name),
{
    (!path.is_empty() && exists_at_path) || (!name.is_empty() && found_by_name)
}

} // verus!
