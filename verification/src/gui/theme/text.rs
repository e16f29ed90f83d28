//! Style of a text.

use vstd::prelude::*;

verus! {

/// Style of a text.
#[derive(Clone, Copy, Debug, PartialEq, Eq, Structural)]
pub enum TextType {
    Standard,
    Secondary,
    Title,
    Subtitle,
    Danger,
    White,
}

impl Default for TextType {
    fn default() -> (s: Self)
        ensures
            s == TextType::Standard,
    {
        TextType::Standard
    }
}

} // verus!
