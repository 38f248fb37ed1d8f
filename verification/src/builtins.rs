//! The builtin commands: what each line of `local`, `remote`, `admin` and
//! `quit` asks of the router.

pub mod admin;
pub mod format;
pub mod local;
pub mod quit;
pub mod remote;

pub use format::format_shell_line;

use crate::shell::spec::{ShellSpec, ShellSpecView};
use vstd::prelude::*;

verus! {

/// What a builtin line asks for.
#[derive(Debug, PartialEq, Eq)]
pub enum Command {
    /// Show the local shells.
    ListLocal,
    /// Show the remote shells.
    ListRemote,
    /// Start a session for `spec` under `name` and register it.
    Add { name: String, spec: ShellSpec },
    /// Stop the session under `name`, if any, and take the name out.
    Remove { name: String },
    /// Make sure that the registered shell `name` runs.
    Start { name: String },
    /// Stop the session under `name`.
    Stop { name: String },
    /// Show the names of the live sessions.
    Sessions,
    /// Make `name` the default mode.
    DefaultSet { name: String },
    /// Ask for the default mode.
    DefaultGet,
}

/// A [`Command`] as contracts see it.
pub enum CommandView {
    ListLocal,
    ListRemote,
    Add { name: Seq<char>, spec: ShellSpecView },
    Remove { name: Seq<char> },
    Start { name: Seq<char> },
    Stop { name: Seq<char> },
    Sessions,
    DefaultSet { name: Seq<char> },
    DefaultGet,
}

impl View for Command {
    type V = CommandView;

    open spec fn view(&self) -> CommandView {
        match self {
            Command::ListLocal => CommandView::ListLocal,
            Command::ListRemote => CommandView::ListRemote,
            Command::Add { name, spec } => CommandView::Add { name: name@, spec: spec@ },
            Command::Remove { name } => CommandView::Remove { name: name@ },
            Command::Start { name } => CommandView::Start { name: name@ },
            Command::Stop { name } => CommandView::Stop { name: name@ },
            Command::Sessions => CommandView::Sessions,
            Command::DefaultSet { name } => CommandView::DefaultSet { name: name@ },
            Command::DefaultGet => CommandView::DefaultGet,
        }
    }
}

} // verus!
