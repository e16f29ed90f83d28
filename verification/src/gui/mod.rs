//! GUI model: style selectors, icons, buttons and window navigation state.

pub mod theme;
pub mod types;
pub mod windows;
