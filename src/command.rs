use vstd::prelude::*;

verus! {

/// What a command is made of, as values: the executable, its arguments in
/// order, and the environment variables set for it.
pub type CommandView = (Seq<char>, Seq<Seq<char>>, Seq<(Seq<char>, Seq<char>)>);

/// The subcommand of `fern` that runs it as a language server.
pub open spec fn lsp_subcommand() -> Seq<char> {
    "lsp"@
}

/// The command that runs the executable at `path` as a language server:
/// one argument, `lsp`, and no environment variables of its own.
pub open spec fn launch_view(path: Seq<char>) -> CommandView {
    (path, seq![lsp_subcommand()], Seq::empty())
}

/// A process for the editor to start: executable, arguments, environment.
#[derive(Debug, PartialEq, Eq)]
pub struct ServerCommand {
    pub command: String,
    pub args: Vec<String>,
    pub env: Vec<(String, String)>,
}

impl View for ServerCommand {
    type V = CommandView;

    open spec fn view(&self) -> CommandView {
        (self.command@, self.args.deep_view(), self.env.deep_view())
    }
}

impl ServerCommand {
    /// The command that starts the executable at `path` as a language server.
    pub fn launch(path: String) -> (r: ServerCommand)
        ensures
            r@ == launch_view(path@),
    {
        let args: Vec<String> = vec!["lsp".to_owned()];
        let env: Vec<(String, String)> = Vec::new();
        let r = ServerCommand { command: path, args, env };
        assert(r.args.deep_view() =~= seq![lsp_subcommand()]);
        assert(r.env.deep_view() =~= Seq::<(Seq<char>, Seq<char>)>::empty());
        r
    }
}

} // verus!
