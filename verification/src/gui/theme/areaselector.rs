//! Style of the area selector.

use vstd::prelude::*;

verus! {

/// Style of the area selector.
#[derive(Clone, Copy, Debug, PartialEq, Eq, Structural)]
pub enum AreaSelType {
    Standard,
}

impl Default for AreaSelType {
    fn default() -> (s: Self)
        ensures
            s == AreaSelType::Standard,
    {
        AreaSelType::Standard
    }
}

} // verus!
