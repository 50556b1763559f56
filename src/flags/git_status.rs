//! How the version-control status of directories is computed.

use vstd::prelude::*;

verus! {

/// The flag showing how git status is computed
#[derive(Clone, Copy, Debug, PartialEq, Eq, Structural)]
pub enum GitStatus {
    /// Each entry shows its own status.
    Flat,
    /// A directory shows the fold of everything inside it.
    Recursive,
}

impl GitStatus {
    /// The variant that the command line asks for: `git` gives `Flat`,
    /// failing that `recursive` gives `Recursive`; neither gives none. The
    /// two arguments say whether each of those switches was passed.
    pub fn from_arg_matches(git: bool, recursive: bool) -> (r: Option<GitStatus>)
        ensures
            git ==> r == Some(GitStatus::Flat),
            !git && recursive ==> r == Some(GitStatus::Recursive),
            !git && !recursive ==> r.is_none(),
    {
        if git {
            Some(GitStatus::Flat)
        } else if recursive {
            Some(GitStatus::Recursive)
        } else {
            None
        }
    }
}

/// The default is `Flat`.
impl Default for GitStatus {
    fn default() -> (r: GitStatus)
        ensures
            r == GitStatus::Flat,
    {
        GitStatus::Flat
    }
}

} // verus!
