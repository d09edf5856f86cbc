use vstd::prelude::*;

verus! {

/// Finding an executable on a worktree's search path.
///
/// The answer depends on the user's environment and file system. Each
/// implementation says, through `may_locate`, which answers a search for a
/// given name can give; the code that asks handles every one of them.
pub trait ExecutableSearch {
    /// Whether a search of `self` for the executable called `binary` may
    /// answer `found`. Unless an implementation says more, any answer may.
    open spec fn may_locate(&self, binary: Seq<char>, found: Option<Seq<char>>) -> bool {
        true
    }

    /// The path of the executable called `binary`, if the search finds one.
    fn locate_executable(&self, binary: &str) -> (r: Option<String>)
        ensures
            self.may_locate(binary@, r.deep_view()),
    ;
}

#[verifier::external_type_specification]
#[verifier::external_body]
pub struct ExWorktree(zed_extension_api::Worktree);

/// Relies on `zed_extension_api::Worktree::which`: asks the editor for the
/// path of `binary` on the worktree's `$PATH`. What comes back depends on the
/// user's machine, so no contract is stated.
#[verifier::external_body]
fn worktree_which(worktree: &zed_extension_api::Worktree, binary: &str) -> Option<String> {
    worktree.which(binary)
}

impl ExecutableSearch for zed_extension_api::Worktree {
    /// The editor's answer is not known in advance: any answer may come.
    open spec fn may_locate(&self, binary: Seq<char>, found: Option<Seq<char>>) -> bool {
        true
    }

    fn locate_executable(&self, binary: &str) -> Option<String> {
        worktree_which(self, binary)
    }
}

} // verus!
