use vstd::prelude::*;

use crate::command::{launch_view, lsp_subcommand, CommandView, ServerCommand};
use crate::error::{error_message, ResolveError};
use crate::search::ExecutableSearch;

verus! {

/// The only language server identifier this extension answers for.
pub open spec fn server_id() -> Seq<char> {
    "fern-lsp"@
}

/// The executable that a request for `fern-lsp` searches for.
pub open spec fn fern_executable() -> Seq<char> {
    "fern"@
}

/// A result with the command seen through its view.
pub open spec fn outcome_view(r: Result<ServerCommand, ResolveError>) -> Result<CommandView, ResolveError> {
    match r {
        Ok(c) => Ok(c@),
        Err(e) => Err(e),
    }
}

/// What a request for language server `id` yields when the search for the
/// executable gives `located`.
pub open spec fn resolution(id: Seq<char>, located: Option<Seq<char>>) -> Result<CommandView, ResolveError> {
    if id != server_id() {
        Err(ResolveError::UnsupportedServer)
    } else {
        match located {
            Some(path) => Ok(launch_view(path)),
            None => Err(ResolveError::ExecutableNotFound),
        }
    }
}

/// The remembered executable path after such a request: the path found, when
/// the request succeeded, and else the one remembered before.
pub open spec fn next_cached_path(
    cached: Option<Seq<char>>,
    id: Seq<char>,
    located: Option<Seq<char>>,
) -> Option<Seq<char>> {
    if id == server_id() && located is Some {
        located
    } else {
        cached
    }
}

/// Whether `id` names the language server this extension launches.
pub fn is_supported_server(id: &str) -> (r: bool)
    ensures
        r == (id@ == server_id()),
{
    let requested: String = id.to_owned();
    let known: String = "fern-lsp".to_owned();
    requested == known
}

/// The extension's state: the last executable path it handed out. Nothing
/// reads it back; each request is answered afresh.
pub struct FernExtension {
    pub cached_binary_path: Option<String>,
}

impl FernExtension {
    /// The remembered path, as characters.
    pub open spec fn cached_path(&self) -> Option<Seq<char>> {
        self.cached_binary_path.deep_view()
    }

    /// A fresh extension, with no path remembered.
    pub fn new() -> (r: FernExtension)
        ensures
            r.cached_path() is None,
    {
        FernExtension { cached_binary_path: None }
    }

    /// Finishes a request for the `fern` language server, given what the
    /// search for the executable returned: the command that runs the path
    /// found, or `ExecutableNotFound` when there is none. A path found is
    /// remembered.
    pub fn command_for_located(&mut self, located: Option<String>) -> (r: Result<ServerCommand, ResolveError>)
        ensures
            outcome_view(r) == resolution(server_id(), located.deep_view()),
            final(self).cached_path() == next_cached_path(old(self).cached_path(), server_id(), located.deep_view()),
    {
        match located {
            Some(path) => {
                self.cached_binary_path = Some(path.clone());
                Ok(ServerCommand::launch(path))
            },
            None => Err(ResolveError::ExecutableNotFound),
        }
    }

    /// Answers the editor's request for the command that starts language
    /// server `id` in `worktree`. Any identifier but `fern-lsp` is refused
    /// before the worktree is searched. Otherwise the worktree is searched for
    /// `fern`, and the result is what that search gave, as
    /// `command_for_located` states: the answer `located` below is one that
    /// the worktree may give to a search for `fern`.
    pub fn language_server_command<W: ExecutableSearch>(&mut self, id: &str, worktree: &W) -> (r: Result<ServerCommand, ResolveError>)
        ensures
            exists|located: Option<Seq<char>>|
                #![trigger resolution(id@, located)]
                {
                    &&& id@ == server_id() ==> worktree.may_locate(fern_executable(), located)
                    &&& outcome_view(r) == resolution(id@, located)
                    &&& final(self).cached_path() == next_cached_path(old(self).cached_path(), id@, located)
                },
            id@ != server_id() ==> r == Err::<ServerCommand, ResolveError>(ResolveError::UnsupportedServer)
                && *final(self) == *old(self),
    {
        if !is_supported_server(id) {
            assert(resolution(id@, None) == Err::<CommandView, ResolveError>(ResolveError::UnsupportedServer));
            return Err(ResolveError::UnsupportedServer);
        }
        let located = worktree.locate_executable("fern");
        let r = self.command_for_located(located);
        assert(resolution(id@, located.deep_view()) == outcome_view(r));
        r
    }
}

/// A request for any language server other than `fern-lsp` is refused as
/// unsupported, whatever a search would find, and leaves the remembered path
/// as it was.
pub proof fn lemma_other_servers_refused(id: Seq<char>, located: Option<Seq<char>>, cached: Option<Seq<char>>)
    requires
        id != server_id(),
    ensures
        resolution(id, located) == Err::<CommandView, ResolveError>(ResolveError::UnsupportedServer),
        next_cached_path(cached, id, located) == cached,
{
}

/// When the search finds `fern` at `path`, a request for `fern-lsp` yields the
/// command that runs `path` with the single argument `lsp` and an empty
/// environment, and `path` is remembered.
pub proof fn lemma_found_executable_launched(path: Seq<char>, cached: Option<Seq<char>>)
    ensures
        resolution(server_id(), Some(path)) == Ok::<CommandView, ResolveError>(
            (path, seq![lsp_subcommand()], Seq::<(Seq<char>, Seq<char>)>::empty()),
        ),
        next_cached_path(cached, server_id(), Some(path)) == Some(path),
{
}

/// When the search finds nothing, a request for `fern-lsp` fails with
/// `ExecutableNotFound`, whose message is not empty, and the remembered path
/// stays as it was.
pub proof fn lemma_missing_executable_reported(cached: Option<Seq<char>>)
    ensures
        resolution(server_id(), None) == Err::<CommandView, ResolveError>(ResolveError::ExecutableNotFound),
        error_message(ResolveError::ExecutableNotFound).len() > 0,
        next_cached_path(cached, server_id(), None) == cached,
{
    reveal_strlit("fern not found in PATH. Install fern or add it to your PATH.");
}

/// Two requests with the same identifier, while the search gives the same
/// answer, produce the same command or the same failure: the remembered path
/// plays no part, and the second request leaves it as the first did.
pub proof fn lemma_repeated_request_same_answer(
    id: Seq<char>,
    located: Option<Seq<char>>,
    cached: Option<Seq<char>>,
    first: Result<ServerCommand, ResolveError>,
    second: Result<ServerCommand, ResolveError>,
)
    requires
        outcome_view(first) == resolution(id, located),
        outcome_view(second) == resolution(id, located),
    ensures
        outcome_view(first) == outcome_view(second),
        next_cached_path(next_cached_path(cached, id, located), id, located) == next_cached_path(cached, id, located),
{
}

} // verus!
