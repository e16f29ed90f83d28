//! Style of a text input.

use vstd::prelude::*;

verus! {

/// Style of a text input.
#[derive(Clone, Copy, Debug, PartialEq, Eq, Structural)]
pub enum TextInputType {
    Standard,
    Error,
}

impl Default for TextInputType {
    fn default() -> (s: Self)
        ensures
            s == TextInputType::Standard,
    {
        TextInputType::Standard
    }
}

} // verus!
