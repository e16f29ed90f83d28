//! Pipeline layer: the pieces that carry media from capture to display and
//! keep audio and video in step.

pub mod clock;
pub mod health;
pub mod receiver;
pub mod sender;
pub mod stage;
pub mod state;
pub mod time;
pub mod types;

