//! Home-directory shorthand in configured paths.

use vstd::prelude::*;

verus! {

/// Whether `path` begins with the home-directory shorthand: a tilde that is
/// the whole path or is followed by a path separator.
pub open spec fn is_home_shorthand(path: Seq<char>) -> bool {
    &&& path.len() >= 1
    &&& path[0] == '~'
    &&& (path.len() == 1 || path[1] == '/' || path[1] == '\\')
}

/// What expanding `path` may give. A path without the shorthand is left as it
/// is. In one with the shorthand only the tilde is replaced: whatever stands
/// in front, the rest of the path follows it unchanged. Which directory
/// replaces the tilde is the machine's business: where none is known, or
/// where the separator is not this platform's, the tilde itself stays.
pub open spec fn expands_to(path: Seq<char>, expanded: Seq<char>) -> bool {
    if is_home_shorthand(path) {
        path.skip(1).is_suffix_of(expanded)
    } else {
        expanded == path
    }
}

/// Calls `shellexpand::tilde`, which replaces a leading `~` by the current
/// user's home directory as the `dirs` crate reports it.
///
/// Trusted: the result depends on the environment, so the contract claims
/// only what the function's source shows of every outcome. The input is
/// returned unchanged unless it starts with `~` followed by nothing, by `/`
/// or (on Windows) by `\`; in that case the result is the home directory, or
/// the tilde where no home directory is known, followed by the rest of the
/// input.
#[verifier::external_body]
pub(crate) fn tilde(path: &str) -> (expanded: String)
    ensures
        expands_to(path@, expanded@),
{
    shellexpand::tilde(path).to_string()
}

} // verus!
