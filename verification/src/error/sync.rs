//! Failures between the tasks of a session.

use crate::text::list::join;
use vstd::prelude::*;

verus! {

/// What failed between tasks.
#[derive(Debug, PartialEq, Eq)]
pub enum SyncError {
    MutexPoison { context: String },
    ChannelSend,
    ChannelRecv,
    ChannelClosed { context: String },
    Join,
}

/// A [`SyncError`] as contracts see it.
pub enum SyncErrorView {
    MutexPoison { context: Seq<char> },
    ChannelSend,
    ChannelRecv,
    ChannelClosed { context: Seq<char> },
    Join,
}

impl View for SyncError {
    type V = SyncErrorView;

    open spec fn view(&self) -> SyncErrorView {
        match self {
            SyncError::MutexPoison { context } => SyncErrorView::MutexPoison { context: context@ },
            SyncError::ChannelSend => SyncErrorView::ChannelSend,
            SyncError::ChannelRecv => SyncErrorView::ChannelRecv,
            SyncError::ChannelClosed { context } => SyncErrorView::ChannelClosed {
                context: context@,
            },
            SyncError::Join => SyncErrorView::Join,
        }
    }
}

/// The message of each failure.
pub open spec fn message_spec(e: SyncErrorView) -> Seq<char> {
    match e {
        SyncErrorView::MutexPoison { context } => "mutex poisoned: "@ + context,
        SyncErrorView::ChannelSend => "channel send failed"@,
        SyncErrorView::ChannelRecv => "channel receive failed"@,
        SyncErrorView::ChannelClosed { context } => "channel closed: "@ + context,
        SyncErrorView::Join => "background task join failed"@,
    }
}

impl SyncError {
    /// The message that the user is shown.
    pub fn message(&self) -> (m: String)
        ensures
            m@ == message_spec(self@),
    {
        match self {
            SyncError::MutexPoison { context } => join("mutex poisoned: ", context.as_str()),
            SyncError::ChannelSend => String::from_str("channel send failed"),
            SyncError::ChannelRecv => String::from_str("channel receive failed"),
            SyncError::ChannelClosed { context } => join("channel closed: ", context.as_str()),
            SyncError::Join => String::from_str("background task join failed"),
        }
    }
}

} // verus!
