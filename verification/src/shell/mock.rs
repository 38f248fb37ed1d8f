//! A session without a process: it echoes what it is sent.

use crate::shell::event::{ShellEvent, ShellEventView};
use crate::shell::pty::{decode_lossy, utf8_lossy};
use vstd::prelude::*;
use vstd::utf8::encode_utf8;

verus! {

/// The bytes that a mock session takes for a line: the line's own, without a
/// newline.
pub fn line_bytes(line: &str) -> (bytes: Vec<u8>)
    ensures
        bytes@ == encode_utf8(line@),
{
    line.as_bytes_vec()
}

/// The event with which a mock session answers the bytes it was sent: the
/// same bytes, as text.
pub fn echo(bytes: &Vec<u8>) -> (event: ShellEvent)
    ensures
        event@ == ShellEventView::Output(utf8_lossy(bytes@)),
{
    ShellEvent::Output(decode_lossy(bytes))
}

/// The event with which a mock session answers a shutdown.
pub fn shutdown_event() -> (event: ShellEvent)
    ensures
        event@ == ShellEventView::Exited("mock_shutdown"@),
{
    ShellEvent::Exited(String::from_str("mock_shutdown"))
}

} // verus!
