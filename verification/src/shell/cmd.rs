//! What a session can be asked to do.

use vstd::prelude::*;

verus! {

/// A command for a session. A session takes its commands in the order in
/// which they were sent.
#[derive(Debug, PartialEq, Eq)]
pub enum ShellCmd {
    /// Write the text and a newline.
    WriteLine(String),
    /// Write the bytes as they are.
    WriteBytes(Vec<u8>),
    /// Resize the terminal to columns and rows.
    Resize(u16, u16),
    /// Ask the shell to exit, and take no further command.
    Shutdown,
}

/// A [`ShellCmd`] as contracts see it.
pub enum ShellCmdView {
    WriteLine(Seq<char>),
    WriteBytes(Seq<u8>),
    Resize(u16, u16),
    Shutdown,
}

impl View for ShellCmd {
    type V = ShellCmdView;

    open spec fn view(&self) -> ShellCmdView {
        match self {
            ShellCmd::WriteLine(line) => ShellCmdView::WriteLine(line@),
            ShellCmd::WriteBytes(bytes) => ShellCmdView::WriteBytes(bytes@),
            ShellCmd::Resize(cols, rows) => ShellCmdView::Resize(*cols, *rows),
            ShellCmd::Shutdown => ShellCmdView::Shutdown,
        }
    }
}

impl Clone for ShellCmd {
    fn clone(&self) -> (r: Self)
        ensures
            r@ == self@,
    {
        match self {
            ShellCmd::WriteLine(line) => ShellCmd::WriteLine(line.clone()),
            ShellCmd::WriteBytes(bytes) => ShellCmd::WriteBytes(bytes.clone()),
            ShellCmd::Resize(cols, rows) => ShellCmd::Resize(*cols, *rows),
            ShellCmd::Shutdown => ShellCmd::Shutdown,
        }
    }
}

} // verus!
