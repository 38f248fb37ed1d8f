//! Failures of the terminal.

use vstd::prelude::*;

verus! {

/// What failed at the terminal.
#[derive(Debug, Clone, Copy, PartialEq, Eq, Structural)]
pub enum UiError {
    IoRead,
    IoWrite,
    ResizeRead,
    RawModeEnable,
    RawModeDisable,
    EventRecv,
}

/// The message of each failure.
pub open spec fn message_spec(e: UiError) -> Seq<char> {
    match e {
        UiError::IoRead => "stdin read failed"@,
        UiError::IoWrite => "stdin write failed"@,
        UiError::ResizeRead => "terminal size read failed"@,
        UiError::RawModeEnable => "failed to enable raw mode"@,
        UiError::RawModeDisable => "failed to disable raw mode"@,
        UiError::EventRecv => "event receive failed"@,
    }
}

impl UiError {
    /// The message that the user is shown.
    pub fn message(&self) -> (m: String)
        ensures
            m@ == message_spec(*self),
    {
        String::from_str(
            match self {
                UiError::IoRead => "stdin read failed",
                UiError::IoWrite => "stdin write failed",
                UiError::ResizeRead => "terminal size read failed",
                UiError::RawModeEnable => "failed to enable raw mode",
                UiError::RawModeDisable => "failed to disable raw mode",
                UiError::EventRecv => "event receive failed",
            },
        )
    }
}

} // verus!
