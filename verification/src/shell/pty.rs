//! The three activities of a running session, as the decisions they take: the
//! writer on each command, the reader on each read, and the waiter on the end
//! of the process. Each decision is a function; the tasks that carry them out
//! live outside this library.

use crate::error::shell::{message_spec, ShellError};
use crate::error::sync::{SyncError, SyncErrorView};
use crate::shell::cmd::{ShellCmd, ShellCmdView};
use crate::shell::event::{ShellEvent, ShellEventView};
use crate::text::list::join;
use vstd::prelude::*;
use vstd::utf8::encode_utf8;

verus! {

/// How many commands may wait for a session's writer.
pub const SHELL_CMD_CHANNEL_CAP: usize = 64;

/// How many events each subscriber may lag behind.
pub const SHELL_EVENT_CHANNEL_CAP: usize = 1024;

/// How many bytes the reader asks for at a time.
pub const PTY_READ_BUF_SIZE: usize = 4096;

/// What names a command in the failure to hand it to the writer.
pub open spec fn send_context(cmd: ShellCmdView) -> Seq<char> {
    match cmd {
        ShellCmdView::WriteLine(_) => "cmd_tx write_line: "@,
        ShellCmdView::WriteBytes(_) => "cmd_tx write_bytes: "@,
        ShellCmdView::Resize(_, _) => "cmd_tx resize: "@,
        ShellCmdView::Shutdown => "cmd_tx shutdown: "@,
    }
}

/// The failure of a command that could not be handed to the writer, because
/// the writer is gone: the channel is closed, and `detail` says how.
pub fn send_failure(cmd: &ShellCmd, detail: &str) -> (e: SyncError)
    ensures
        e@ == (SyncErrorView::ChannelClosed { context: send_context(cmd@) + detail@ }),
{
    let head = match cmd {
        ShellCmd::WriteLine(_) => "cmd_tx write_line: ",
        ShellCmd::WriteBytes(_) => "cmd_tx write_bytes: ",
        ShellCmd::Resize(_, _) => "cmd_tx resize: ",
        ShellCmd::Shutdown => "cmd_tx shutdown: ",
    };
    SyncError::ChannelClosed { context: join(head, detail) }
}

/// The bytes of the line `exit`, newline included.
pub open spec fn exit_line() -> Seq<u8> {
    seq![101u8, 120u8, 105u8, 116u8, 10u8]
}

/// What the writer does for one command.
#[derive(Debug, PartialEq, Eq)]
pub enum WriterStep {
    /// Write these bytes and flush.
    Write { bytes: Vec<u8> },
    /// Resize the terminal.
    Resize { cols: u16, rows: u16 },
}

/// A [`WriterStep`] as contracts see it.
pub enum WriterStepView {
    Write { bytes: Seq<u8> },
    Resize { cols: u16, rows: u16 },
}

impl View for WriterStep {
    type V = WriterStepView;

    open spec fn view(&self) -> WriterStepView {
        match self {
            WriterStep::Write { bytes } => WriterStepView::Write { bytes: bytes@ },
            WriterStep::Resize { cols, rows } => WriterStepView::Resize { cols: *cols, rows: *rows },
        }
    }
}

/// A line is written as its UTF-8 bytes and a newline, bytes as they are, and
/// a shutdown as the line `exit`.
pub open spec fn writer_step_spec(cmd: ShellCmdView) -> WriterStepView {
    match cmd {
        ShellCmdView::WriteLine(line) => WriterStepView::Write { bytes: encode_utf8(line).push(10u8) },
        ShellCmdView::WriteBytes(bytes) => WriterStepView::Write { bytes },
        ShellCmdView::Resize(cols, rows) => WriterStepView::Resize { cols, rows },
        ShellCmdView::Shutdown => WriterStepView::Write { bytes: exit_line() },
    }
}

/// What the writer does for `cmd`.
pub fn writer_step(cmd: &ShellCmd) -> (step: WriterStep)
    ensures
        step@ == writer_step_spec(cmd@),
{
    match cmd {
        ShellCmd::WriteLine(line) => {
            let mut bytes = line.as_str().as_bytes_vec();
            bytes.push(10u8);
            WriterStep::Write { bytes }
        },
        ShellCmd::WriteBytes(bytes) => WriterStep::Write { bytes: bytes.clone() },
        ShellCmd::Resize(cols, rows) => WriterStep::Resize { cols: *cols, rows: *rows },
        ShellCmd::Shutdown => {
            let mut bytes: Vec<u8> = Vec::new();
            bytes.push(101u8);
            bytes.push(120u8);
            bytes.push(105u8);
            bytes.push(116u8);
            bytes.push(10u8);
            assert(bytes@ =~= exit_line());
            WriterStep::Write { bytes }
        },
    }
}

/// How a step of the writer went.
#[derive(Debug, PartialEq, Eq)]
pub enum TaskOutcome {
    /// It was carried out.
    Done,
    /// It failed, with this message.
    Failed { message: String },
    /// The task that carried it out was lost.
    JoinFailed,
}

/// A [`TaskOutcome`] as contracts see it.
pub enum TaskOutcomeView {
    Done,
    Failed { message: Seq<char> },
    JoinFailed,
}

impl View for TaskOutcome {
    type V = TaskOutcomeView;

    open spec fn view(&self) -> TaskOutcomeView {
        match self {
            TaskOutcome::Done => TaskOutcomeView::Done,
            TaskOutcome::Failed { message } => TaskOutcomeView::Failed { message: message@ },
            TaskOutcome::JoinFailed => TaskOutcomeView::JoinFailed,
        }
    }
}

/// What follows a step: an event to broadcast, if any, and whether the
/// activity goes on.
#[derive(Debug, PartialEq, Eq)]
pub struct Verdict {
    pub event: Option<ShellEvent>,
    pub proceed: bool,
}

/// A [`Verdict`] as contracts see it.
pub struct VerdictView {
    pub event: Option<ShellEventView>,
    pub proceed: bool,
}

impl View for Verdict {
    type V = VerdictView;

    open spec fn view(&self) -> VerdictView {
        VerdictView {
            event: match self.event {
                Some(e) => Some(e@),
                None => None,
            },
            proceed: self.proceed,
        }
    }
}

/// The verdict that ends an activity with the reason `reason`.
pub open spec fn ended(reason: Seq<char>) -> VerdictView {
    VerdictView { event: Some(ShellEventView::Exited(reason)), proceed: false }
}

/// The verdict that lets an activity go on in silence.
pub open spec fn go_on() -> VerdictView {
    VerdictView { event: None, proceed: true }
}

/// A write that fails ends the session with an `Exited` event; a resize that
/// fails is passed over; a shutdown ends the writer whatever came of it.
pub open spec fn writer_verdict_spec(cmd: ShellCmdView, outcome: TaskOutcomeView) -> VerdictView {
    match cmd {
        ShellCmdView::WriteLine(_) => match outcome {
            TaskOutcomeView::Done => go_on(),
            TaskOutcomeView::Failed { message } => ended("write_failed: "@ + message),
            TaskOutcomeView::JoinFailed => ended("join_failed: "@ + message_spec(ShellError::Join)),
        },
        ShellCmdView::WriteBytes(_) => match outcome {
            TaskOutcomeView::Done => go_on(),
            TaskOutcomeView::Failed { message } => ended("write_bytes_failed: "@ + message),
            TaskOutcomeView::JoinFailed => ended(
                "write_bytes_join_failed: "@ + message_spec(ShellError::Join),
            ),
        },
        ShellCmdView::Resize(_, _) => go_on(),
        ShellCmdView::Shutdown => VerdictView { event: None, proceed: false },
    }
}

fn end_with(head: &str, tail: &str) -> (v: Verdict)
    ensures
        v@ == ended(head@ + tail@),
{
    Verdict { event: Some(ShellEvent::Exited(join(head, tail))), proceed: false }
}

/// What the writer does after the step for `cmd` went as `outcome` says.
pub fn writer_verdict(cmd: &ShellCmd, outcome: &TaskOutcome) -> (v: Verdict)
    ensures
        v@ == writer_verdict_spec(cmd@, outcome@),
{
    match cmd {
        ShellCmd::WriteLine(_) => match outcome {
            TaskOutcome::Done => Verdict { event: None, proceed: true },
            TaskOutcome::Failed { message } => end_with("write_failed: ", message.as_str()),
            TaskOutcome::JoinFailed => end_with("join_failed: ", ShellError::Join.text()),
        },
        ShellCmd::WriteBytes(_) => match outcome {
            TaskOutcome::Done => Verdict { event: None, proceed: true },
            TaskOutcome::Failed { message } => end_with("write_bytes_failed: ", message.as_str()),
            TaskOutcome::JoinFailed => end_with(
                "write_bytes_join_failed: ",
                ShellError::Join.text(),
            ),
        },
        ShellCmd::Resize(_, _) => Verdict { event: None, proceed: true },
        ShellCmd::Shutdown => Verdict { event: None, proceed: false },
    }
}

/// The text that a chunk of bytes is shown as: its UTF-8 decoding, with the
/// replacement character where the bytes are no UTF-8.
pub uninterp spec fn utf8_lossy(bytes: Seq<u8>) -> Seq<char>;

/// `String::from_utf8_lossy` decodes `bytes`; the contract gives the text the
/// name [`utf8_lossy`] and claims nothing else of it.
#[verifier::external_body]
pub(crate) fn decode_lossy(bytes: &Vec<u8>) -> (text: String)
    ensures
        text@ == utf8_lossy(bytes@),
{
    String::from_utf8_lossy(bytes).into_owned()
}

/// How a read from the terminal went.
#[derive(Debug, PartialEq, Eq)]
pub enum ReadOutcome {
    /// These bytes were read; none means the end of the stream.
    Data(Vec<u8>),
    /// The read failed.
    Failed,
}

/// A [`ReadOutcome`] as contracts see it.
pub enum ReadOutcomeView {
    Data(Seq<u8>),
    Failed,
}

impl View for ReadOutcome {
    type V = ReadOutcomeView;

    open spec fn view(&self) -> ReadOutcomeView {
        match self {
            ReadOutcome::Data(bytes) => ReadOutcomeView::Data(bytes@),
            ReadOutcome::Failed => ReadOutcomeView::Failed,
        }
    }
}

/// The verdict on a chunk that was decoded to `text`: broadcast it and read on.
pub open spec fn chunk_verdict_spec(text: Seq<char>) -> VerdictView {
    VerdictView { event: Some(ShellEventView::Output(text)), proceed: true }
}

/// The end of the stream and a failed read end the reader; a chunk is
/// broadcast as text.
pub open spec fn reader_verdict_spec(outcome: ReadOutcomeView) -> VerdictView {
    match outcome {
        ReadOutcomeView::Data(bytes) => if bytes.len() == 0 {
            ended("eof"@)
        } else {
            chunk_verdict_spec(utf8_lossy(bytes))
        },
        ReadOutcomeView::Failed => ended("reader_error: "@ + message_spec(ShellError::Read)),
    }
}

/// What the reader does with a chunk that was decoded to `text`.
pub fn chunk_verdict(text: String) -> (v: Verdict)
    ensures
        v@ == chunk_verdict_spec(text@),
{
    Verdict { event: Some(ShellEvent::Output(text)), proceed: true }
}

/// What the reader does after a read went as `outcome` says.
pub fn reader_verdict(outcome: &ReadOutcome) -> (v: Verdict)
    ensures
        v@ == reader_verdict_spec(outcome@),
{
    match outcome {
        ReadOutcome::Data(bytes) => {
            if bytes.len() == 0 {
                let v = Verdict {
                    event: Some(ShellEvent::Exited(String::from_str("eof"))),
                    proceed: false,
                };
                v
            } else {
                chunk_verdict(decode_lossy(bytes))
            }
        },
        ReadOutcome::Failed => end_with("reader_error: ", ShellError::Read.text()),
    }
}

/// How waiting for the process went.
#[derive(Debug, PartialEq, Eq)]
pub enum WaitOutcome {
    /// The process ended, with this status.
    Exited { status: String },
    /// Waiting failed, with this message.
    Failed { message: String },
}

/// A [`WaitOutcome`] as contracts see it.
pub enum WaitOutcomeView {
    Exited { status: Seq<char> },
    Failed { message: Seq<char> },
}

impl View for WaitOutcome {
    type V = WaitOutcomeView;

    open spec fn view(&self) -> WaitOutcomeView {
        match self {
            WaitOutcome::Exited { status } => WaitOutcomeView::Exited { status: status@ },
            WaitOutcome::Failed { message } => WaitOutcomeView::Failed { message: message@ },
        }
    }
}

/// The waiter reports the end of the process either way.
pub open spec fn waiter_event_spec(outcome: WaitOutcomeView) -> ShellEventView {
    match outcome {
        WaitOutcomeView::Exited { status } => ShellEventView::Exited(status),
        WaitOutcomeView::Failed { message } => ShellEventView::Exited("wait_failed: "@ + message),
    }
}

/// The event that the waiter broadcasts.
pub fn waiter_event(outcome: &WaitOutcome) -> (event: ShellEvent)
    ensures
        event@ == waiter_event_spec(outcome@),
{
    match outcome {
        WaitOutcome::Exited { status } => ShellEvent::Exited(status.clone()),
        WaitOutcome::Failed { message } => ShellEvent::Exited(
            join("wait_failed: ", message.as_str()),
        ),
    }
}

} // verus!
