//! What can go wrong, kind by kind, with the message of each.

pub mod builtin;
pub mod repl;
pub mod runtime;
pub mod shell;
pub mod sync;
pub mod ui;

pub use builtin::BuiltinError;
pub use repl::{ReplError, ReplRouterError};
pub use runtime::RuntimeError;
pub use shell::ShellError;
pub use sync::SyncError;
pub use ui::UiError;

use builtin::BuiltinErrorView;
use repl::ReplErrorView;
use runtime::RuntimeErrorView;
use vstd::prelude::*;
use vstd::std_specs::convert::FromSpecImpl;

verus! {

/// Any failure of the program, by the part that raised it.
#[derive(Debug, PartialEq, Eq)]
pub enum PshError {
    Builtin(BuiltinError),
    Repl(ReplError),
    Runtime(RuntimeError),
    Shell(ShellError),
    Ui(UiError),
}

/// A [`PshError`] as contracts see it.
pub enum PshErrorView {
    Builtin(BuiltinErrorView),
    Repl(ReplErrorView),
    Runtime(RuntimeErrorView),
    Shell(ShellError),
    Ui(UiError),
}

impl View for PshError {
    type V = PshErrorView;

    open spec fn view(&self) -> PshErrorView {
        match self {
            PshError::Builtin(e) => PshErrorView::Builtin(e@),
            PshError::Repl(e) => PshErrorView::Repl(e@),
            PshError::Runtime(e) => PshErrorView::Runtime(e@),
            PshError::Shell(e) => PshErrorView::Shell(*e),
            PshError::Ui(e) => PshErrorView::Ui(*e),
        }
    }
}

/// The message of a failure: that of the part that raised it.
pub open spec fn message_spec(e: PshErrorView) -> Seq<char> {
    match e {
        PshErrorView::Builtin(e) => builtin::message_spec(e),
        PshErrorView::Repl(e) => repl::message_spec(e),
        PshErrorView::Runtime(e) => runtime::message_spec(e),
        PshErrorView::Shell(e) => shell::message_spec(e),
        PshErrorView::Ui(e) => ui::message_spec(e),
    }
}

impl PshError {
    /// The message that the user is shown.
    pub fn message(&self) -> (m: String)
        ensures
            m@ == message_spec(self@),
    {
        match self {
            PshError::Builtin(e) => e.message(),
            PshError::Repl(e) => e.message(),
            PshError::Runtime(e) => e.message(),
            PshError::Shell(e) => e.message(),
            PshError::Ui(e) => e.message(),
        }
    }

    /// Whether this is the request to end the program, which is no failure.
    pub fn is_exit_request(&self) -> (r: bool)
        ensures
            r == (self@ == PshErrorView::Builtin(BuiltinErrorView::ExitRequested)),
    {
        match self {
            PshError::Builtin(BuiltinError::ExitRequested) => true,
            _ => false,
        }
    }
}

impl From<BuiltinError> for PshError {
    fn from(e: BuiltinError) -> (r: Self) {
        PshError::Builtin(e)
    }
}

impl FromSpecImpl<BuiltinError> for PshError {
    open spec fn obeys_from_spec() -> bool {
        true
    }

    open spec fn from_spec(e: BuiltinError) -> Self {
        PshError::Builtin(e)
    }
}

impl From<ReplError> for PshError {
    fn from(e: ReplError) -> (r: Self) {
        PshError::Repl(e)
    }
}

impl FromSpecImpl<ReplError> for PshError {
    open spec fn obeys_from_spec() -> bool {
        true
    }

    open spec fn from_spec(e: ReplError) -> Self {
        PshError::Repl(e)
    }
}

impl From<ReplRouterError> for PshError {
    fn from(e: ReplRouterError) -> (r: Self) {
        PshError::Repl(ReplError::Router(e))
    }
}

impl FromSpecImpl<ReplRouterError> for PshError {
    open spec fn obeys_from_spec() -> bool {
        true
    }

    open spec fn from_spec(e: ReplRouterError) -> Self {
        PshError::Repl(ReplError::Router(e))
    }
}

impl From<RuntimeError> for PshError {
    fn from(e: RuntimeError) -> (r: Self) {
        PshError::Runtime(e)
    }
}

impl FromSpecImpl<RuntimeError> for PshError {
    open spec fn obeys_from_spec() -> bool {
        true
    }

    open spec fn from_spec(e: RuntimeError) -> Self {
        PshError::Runtime(e)
    }
}

impl From<ShellError> for PshError {
    fn from(e: ShellError) -> (r: Self) {
        PshError::Shell(e)
    }
}

impl FromSpecImpl<ShellError> for PshError {
    open spec fn obeys_from_spec() -> bool {
        true
    }

    open spec fn from_spec(e: ShellError) -> Self {
        PshError::Shell(e)
    }
}

impl From<UiError> for PshError {
    fn from(e: UiError) -> (r: Self) {
        PshError::Ui(e)
    }
}

impl FromSpecImpl<UiError> for PshError {
    open spec fn obeys_from_spec() -> bool {
        true
    }

    open spec fn from_spec(e: UiError) -> Self {
        PshError::Ui(e)
    }
}

} // verus!
