//! Failures of a session.

use vstd::prelude::*;

verus! {

/// What failed in a session: the first four while it was started, the others
/// while it ran.
#[derive(Debug, Clone, Copy, PartialEq, Eq, Structural)]
pub enum ShellError {
    PtyOpen,
    Spawn,
    CloneReader,
    TakeWriter,
    Write,
    Read,
    Resize,
    Wait,
    Join,
    ChannelClosed,
}

/// The message of each failure.
pub open spec fn message_spec(e: ShellError) -> Seq<char> {
    match e {
        ShellError::PtyOpen => "failed to open PTY"@,
        ShellError::Spawn => "failed to spawn child"@,
        ShellError::CloneReader => "failed to clone PTY reader"@,
        ShellError::TakeWriter => "failed to clone PTY writer"@,
        ShellError::Write => "failed to write to PTY"@,
        ShellError::Read => "failed to read from PTY"@,
        ShellError::Resize => "failed to resize PTY"@,
        ShellError::Wait => "failed to wait on child"@,
        ShellError::Join => "background task join failed"@,
        ShellError::ChannelClosed => "command channel closed"@,
    }
}

impl ShellError {
    /// The message, as a literal.
    pub fn text(&self) -> (m: &'static str)
        ensures
            m@ == message_spec(*self),
    {
        match self {
            ShellError::PtyOpen => "failed to open PTY",
            ShellError::Spawn => "failed to spawn child",
            ShellError::CloneReader => "failed to clone PTY reader",
            ShellError::TakeWriter => "failed to clone PTY writer",
            ShellError::Write => "failed to write to PTY",
            ShellError::Read => "failed to read from PTY",
            ShellError::Resize => "failed to resize PTY",
            ShellError::Wait => "failed to wait on child",
            ShellError::Join => "background task join failed",
            ShellError::ChannelClosed => "command channel closed",
        }
    }

    /// The message that the user is shown.
    pub fn message(&self) -> (m: String)
        ensures
            m@ == message_spec(*self),
    {
        String::from_str(self.text())
    }
}

} // verus!
