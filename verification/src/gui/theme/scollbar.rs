//! Style of a scrollbar.

use vstd::prelude::*;

verus! {

/// Style of a scrollbar.
#[derive(Clone, Copy, Debug, PartialEq, Eq, Structural)]
pub enum ScrollbarType {
    Standard,
}

impl Default for ScrollbarType {
    fn default() -> (s: Self)
        ensures
            s == ScrollbarType::Standard,
    {
        ScrollbarType::Standard
    }
}

} // verus!
