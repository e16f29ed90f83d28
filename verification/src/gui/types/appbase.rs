//! Pages of the application.

use vstd::prelude::*;

verus! {

/// The pages of the application window.
#[derive(Clone, Copy, Debug, PartialEq, Eq, Structural)]
pub enum Page {
    Home,
    Caster,
    Client,
    Hotkeys,
}

} // verus!
