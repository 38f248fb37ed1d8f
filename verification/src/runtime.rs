//! Startup: the configuration as it was read, and what is made of it.

pub mod bootstrap;
pub mod config;
pub mod keys;

pub use bootstrap::bootstrap;
pub use config::ReplSettings;
