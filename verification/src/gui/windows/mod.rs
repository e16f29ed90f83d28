//! Window state: page navigation of the main window, the area selector's
//! selection, the annotation window's drawing settings, and the registry of
//! open windows.

pub mod annotation;
pub mod area_selector;
pub mod main;
pub mod manager;
