//! The options of the command line.

use vstd::prelude::*;

verus! {

/// The width of the terminal where none is given.
pub const DEFAULT_COLS: u16 = 80;

/// The height of the terminal where none is given.
pub const DEFAULT_ROWS: u16 = 24;

/// What the command line asks for.
#[derive(Debug, Clone, Copy, PartialEq, Eq, Structural)]
pub struct Cli {
    /// The width of every session's terminal.
    pub cols: u16,
    /// The height of every session's terminal.
    pub rows: u16,
    pub bash: bool,
    pub zsh: bool,
    /// Whether to attach to the shell interactively.
    pub interactive: bool,
    /// How often `-v` was given.
    pub verbose: u8,
}

impl Default for Cli {
    /// The options of a command line that gives none.
    fn default() -> (cli: Self)
        ensures
            cli == (Cli {
                cols: DEFAULT_COLS,
                rows: DEFAULT_ROWS,
                bash: true,
                zsh: true,
                interactive: true,
                verbose: 0,
            }),
    {
        Cli {
            cols: DEFAULT_COLS,
            rows: DEFAULT_ROWS,
            bash: true,
            zsh: true,
            interactive: true,
            verbose: 0,
        }
    }
}

} // verus!
