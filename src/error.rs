use vstd::prelude::*;

verus! {

/// Why no command could be produced for a language server request.
#[derive(Clone, Copy, Debug, PartialEq, Eq, Structural)]
pub enum ResolveError {
    /// The requested language server is not the one this extension launches.
    UnsupportedServer,
    /// The `fern` executable is not on the worktree's search path.
    ExecutableNotFound,
}

/// The text shown to the user for each kind of failure.
pub open spec fn error_message(e: ResolveError) -> Seq<char> {
    match e {
        ResolveError::UnsupportedServer => "Unknown language server"@,
        ResolveError::ExecutableNotFound => "fern not found in PATH. Install fern or add it to your PATH."@,
    }
}

impl ResolveError {
    /// The user-facing text of this failure; never empty.
    pub fn message(&self) -> (r: String)
        ensures
            r@ == error_message(*self),
            r@.len() > 0,
    {
        match self {
            ResolveError::UnsupportedServer => {
                let text = "Unknown language server";
                proof {
                    reveal_strlit("Unknown language server");
                }
                text.to_owned()
            },
            ResolveError::ExecutableNotFound => {
                let text = "fern not found in PATH. Install fern or add it to your PATH.";
                proof {
                    reveal_strlit("fern not found in PATH. Install fern or add it to your PATH.");
                }
                text.to_owned()
            },
        }
    }
}

} // verus!
