//! Reading a line: who it addresses, and what it asks for.

pub mod laws;
pub mod line;
pub mod mode;
pub mod parser;
pub mod router;
pub mod sessions;

pub use mode::ModeState;
pub use router::Router;
pub use sessions::SessionTable;
