//! Themes and button styles.

pub mod buttons;
pub mod csx;
