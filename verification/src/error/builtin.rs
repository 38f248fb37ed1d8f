//! Failures of the builtin commands.

use crate::text::list::join;
use vstd::prelude::*;

verus! {

/// Why a builtin command did not run. `ExitRequested` is no failure: it asks
/// the input loop to end.
#[derive(Debug, PartialEq, Eq)]
pub enum BuiltinError {
    LocalUnrecognized { args: String },
    RemoteUnrecognized { args: String },
    AdminUnrecognized { args: String },
    InvalidArgs { detail: String },
    ExitRequested,
}

/// A [`BuiltinError`] as contracts see it.
pub enum BuiltinErrorView {
    LocalUnrecognized { args: Seq<char> },
    RemoteUnrecognized { args: Seq<char> },
    AdminUnrecognized { args: Seq<char> },
    InvalidArgs { detail: Seq<char> },
    ExitRequested,
}

impl View for BuiltinError {
    type V = BuiltinErrorView;

    open spec fn view(&self) -> BuiltinErrorView {
        match self {
            BuiltinError::LocalUnrecognized { args } => BuiltinErrorView::LocalUnrecognized {
                args: args@,
            },
            BuiltinError::RemoteUnrecognized { args } => BuiltinErrorView::RemoteUnrecognized {
                args: args@,
            },
            BuiltinError::AdminUnrecognized { args } => BuiltinErrorView::AdminUnrecognized {
                args: args@,
            },
            BuiltinError::InvalidArgs { detail } => BuiltinErrorView::InvalidArgs {
                detail: detail@,
            },
            BuiltinError::ExitRequested => BuiltinErrorView::ExitRequested,
        }
    }
}

/// The message of each failure.
pub open spec fn message_spec(e: BuiltinErrorView) -> Seq<char> {
    match e {
        BuiltinErrorView::LocalUnrecognized { args } => "unrecognized local command: "@ + args,
        BuiltinErrorView::RemoteUnrecognized { args } => "unrecognized remote command: "@ + args,
        BuiltinErrorView::AdminUnrecognized { args } => "unrecognized admin command: "@ + args,
        BuiltinErrorView::InvalidArgs { detail } => "invalid arguments: "@ + detail,
        BuiltinErrorView::ExitRequested => "user requested exit"@,
    }
}

impl BuiltinError {
    /// The message that the user is shown.
    pub fn message(&self) -> (m: String)
        ensures
            m@ == message_spec(self@),
    {
        match self {
            BuiltinError::LocalUnrecognized { args } => join(
                "unrecognized local command: ",
                args.as_str(),
            ),
            BuiltinError::RemoteUnrecognized { args } => join(
                "unrecognized remote command: ",
                args.as_str(),
            ),
            BuiltinError::AdminUnrecognized { args } => join(
                "unrecognized admin command: ",
                args.as_str(),
            ),
            BuiltinError::InvalidArgs { detail } => join("invalid arguments: ", detail.as_str()),
            BuiltinError::ExitRequested => String::from_str("user requested exit"),
        }
    }
}

} // verus!
