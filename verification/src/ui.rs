//! What the screen shows of the registry: the prompt, the colors of a line,
//! and the prefix menu.

pub mod editor;
pub mod paint;
pub mod palette;
pub mod prefix_menu;

pub use editor::prompt::PshPrompt;
