//! The line editor's view of a line and of its prompt.

pub mod highlighter;
pub mod prompt;
