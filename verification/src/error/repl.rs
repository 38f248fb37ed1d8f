//! Failures of the router.

use crate::text::list::join;
use vstd::prelude::*;

verus! {

/// Why the router could not route.
#[derive(Debug, PartialEq, Eq)]
pub enum ReplRouterError {
    /// The name is not registered as a shell.
    UnknownShell { name: String },
    /// A line addresses nobody, and neither a current nor a default mode is
    /// set.
    DefaultShellUnset,
    /// The default mode names nothing that is registered.
    DefaultShellUnknown { name: String },
    /// No live session stands under the name.
    SessionNotRunning { name: String },
}

/// A [`ReplRouterError`] as contracts see it.
pub enum ReplRouterErrorView {
    UnknownShell { name: Seq<char> },
    DefaultShellUnset,
    DefaultShellUnknown { name: Seq<char> },
    SessionNotRunning { name: Seq<char> },
}

impl View for ReplRouterError {
    type V = ReplRouterErrorView;

    open spec fn view(&self) -> ReplRouterErrorView {
        match self {
            ReplRouterError::UnknownShell { name } => ReplRouterErrorView::UnknownShell {
                name: name@,
            },
            ReplRouterError::DefaultShellUnset => ReplRouterErrorView::DefaultShellUnset,
            ReplRouterError::DefaultShellUnknown { name } => ReplRouterErrorView::DefaultShellUnknown {
                name: name@,
            },
            ReplRouterError::SessionNotRunning { name } => ReplRouterErrorView::SessionNotRunning {
                name: name@,
            },
        }
    }
}

/// The message of each router failure.
pub open spec fn router_message_spec(e: ReplRouterErrorView) -> Seq<char> {
    match e {
        ReplRouterErrorView::UnknownShell { name } => "unknown shell: "@ + name,
        ReplRouterErrorView::DefaultShellUnset => "default shell is not set"@,
        ReplRouterErrorView::DefaultShellUnknown { name } => "default shell is unknown: "@ + name,
        ReplRouterErrorView::SessionNotRunning { name } => "session is not running: "@ + name,
    }
}

impl ReplRouterError {
    /// The message that the user is shown.
    pub fn message(&self) -> (m: String)
        ensures
            m@ == router_message_spec(self@),
    {
        match self {
            ReplRouterError::UnknownShell { name } => join("unknown shell: ", name.as_str()),
            ReplRouterError::DefaultShellUnset => String::from_str("default shell is not set"),
            ReplRouterError::DefaultShellUnknown { name } => join(
                "default shell is unknown: ",
                name.as_str(),
            ),
            ReplRouterError::SessionNotRunning { name } => join(
                "session is not running: ",
                name.as_str(),
            ),
        }
    }
}

/// A failure while a line was read and routed.
#[derive(Debug, PartialEq, Eq)]
pub enum ReplError {
    Router(ReplRouterError),
}

/// A [`ReplError`] as contracts see it.
pub enum ReplErrorView {
    Router(ReplRouterErrorView),
}

impl View for ReplError {
    type V = ReplErrorView;

    open spec fn view(&self) -> ReplErrorView {
        match self {
            ReplError::Router(e) => ReplErrorView::Router(e@),
        }
    }
}

/// The message of a failure is that of the router failure it holds.
pub open spec fn message_spec(e: ReplErrorView) -> Seq<char> {
    match e {
        ReplErrorView::Router(e) => router_message_spec(e),
    }
}

impl ReplError {
    /// The message that the user is shown.
    pub fn message(&self) -> (m: String)
        ensures
            m@ == message_spec(self@),
    {
        match self {
            ReplError::Router(e) => e.message(),
        }
    }
}

impl From<ReplRouterError> for ReplError {
    fn from(e: ReplRouterError) -> (r: Self) {
        ReplError::Router(e)
    }
}

impl vstd::std_specs::convert::FromSpecImpl<ReplRouterError> for ReplError {
    open spec fn obeys_from_spec() -> bool {
        true
    }

    open spec fn from_spec(e: ReplRouterError) -> Self {
        ReplError::Router(e)
    }
}

} // verus!
