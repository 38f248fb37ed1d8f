//! What a session reports.

use vstd::prelude::*;

verus! {

/// An event of a session, sent to everyone who subscribed.
#[derive(Debug, PartialEq, Eq)]
pub enum ShellEvent {
    /// A chunk of what the process wrote.
    Output(String),
    /// The session is over, and why.
    Exited(String),
}

/// A [`ShellEvent`] as contracts see it.
pub enum ShellEventView {
    Output(Seq<char>),
    Exited(Seq<char>),
}

impl View for ShellEvent {
    type V = ShellEventView;

    open spec fn view(&self) -> ShellEventView {
        match self {
            ShellEvent::Output(text) => ShellEventView::Output(text@),
            ShellEvent::Exited(reason) => ShellEventView::Exited(reason@),
        }
    }
}

impl Clone for ShellEvent {
    fn clone(&self) -> (r: Self)
        ensures
            r@ == self@,
    {
        match self {
            ShellEvent::Output(text) => ShellEvent::Output(text.clone()),
            ShellEvent::Exited(reason) => ShellEvent::Exited(reason.clone()),
        }
    }
}

} // verus!
