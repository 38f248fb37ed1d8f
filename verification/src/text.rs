//! Characters and strings as the rest of the crate reads them.

pub mod case;
pub mod list;
pub mod number;
pub mod order;
pub mod space;
