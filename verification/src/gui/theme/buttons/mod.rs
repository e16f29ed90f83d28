//! Button builders.

pub mod filled;
pub mod key;
