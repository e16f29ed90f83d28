//! Style of a button.

use vstd::prelude::*;

verus! {

/// Style of a button.
#[derive(Clone, Copy, Debug, PartialEq, Eq, Structural)]
pub enum ButtonType {
    Standard,
    Tab,
    Starred,
    Alert,
    Transparent,
    KeyBoard,
}

impl Default for ButtonType {
    fn default() -> (s: Self)
        ensures
            s == ButtonType::Standard,
    {
        ButtonType::Standard
    }
}

} // verus!
