//! Failures at startup.

use crate::text::list::join;
use vstd::prelude::*;

verus! {

/// Why the program could not be set up as configured.
#[derive(Debug, PartialEq, Eq)]
pub enum RuntimeError {
    ConfigRead { path: String },
    ConfigParse { path: String },
    LoggingReconfigure,
}

/// A [`RuntimeError`] as contracts see it.
pub enum RuntimeErrorView {
    ConfigRead { path: Seq<char> },
    ConfigParse { path: Seq<char> },
    LoggingReconfigure,
}

impl View for RuntimeError {
    type V = RuntimeErrorView;

    open spec fn view(&self) -> RuntimeErrorView {
        match self {
            RuntimeError::ConfigRead { path } => RuntimeErrorView::ConfigRead { path: path@ },
            RuntimeError::ConfigParse { path } => RuntimeErrorView::ConfigParse { path: path@ },
            RuntimeError::LoggingReconfigure => RuntimeErrorView::LoggingReconfigure,
        }
    }
}

/// The message of each failure.
pub open spec fn message_spec(e: RuntimeErrorView) -> Seq<char> {
    match e {
        RuntimeErrorView::ConfigRead { path } => "failed to read config at "@ + path,
        RuntimeErrorView::ConfigParse { path } => "failed to parse config at "@ + path,
        RuntimeErrorView::LoggingReconfigure => "failed to reconfigure logging"@,
    }
}

impl RuntimeError {
    /// The message that the user is shown.
    pub fn message(&self) -> (m: String)
        ensures
            m@ == message_spec(self@),
    {
        match self {
            RuntimeError::ConfigRead { path } => join("failed to read config at ", path.as_str()),
            RuntimeError::ConfigParse { path } => join("failed to parse config at ", path.as_str()),
            RuntimeError::LoggingReconfigure => String::from_str("failed to reconfigure logging"),
        }
    }
}

} // verus!
