//! Application-level GUI types.

pub mod appbase;
pub mod icons;
