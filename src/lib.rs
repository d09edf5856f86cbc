//! Tells the Zed editor how to start the `fern` language server.
//!
//! Zed hands the extension a language server identifier and a worktree; the
//! extension finds the `fern` executable on the worktree's search path and
//! answers with the command that starts `fern lsp`.

pub mod error;
pub mod command;
pub mod search;
pub mod extension;

pub use command::ServerCommand;
pub use error::ResolveError;
pub use extension::FernExtension;
pub use search::ExecutableSearch;
