//! Style selectors of the widgets.

pub mod areaselector;
pub mod buttons;
pub mod container;
pub mod picklist;
pub mod scollbar;
pub mod styles;
pub mod text;
pub mod textinput;
