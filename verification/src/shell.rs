//! Shells: how one is described, started and driven.

pub mod cmd;
pub mod event;
pub mod factory;
pub mod mock;
pub mod pty;
pub mod spec;

pub use cmd::ShellCmd;
pub use event::ShellEvent;
pub use spec::{RemoteBackend, ShellSpec};
