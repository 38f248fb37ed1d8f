//! A session multiplexer's engine: a registry of named shells, the parser that
//! addresses them by prefix, and the router that decides what each input line
//! does to the table of live sessions.

pub mod builtins;
pub mod cli;
pub mod error;
pub mod names;
pub mod registry;
pub mod repl;
pub mod runtime;
pub mod shell;
pub mod text;
pub mod ui;

pub use error::{PshError, ShellError};
