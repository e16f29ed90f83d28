//! Style of a pick list.

use vstd::prelude::*;

verus! {

/// Style of a pick list.
#[derive(Clone, Copy, Debug, PartialEq, Eq, Structural)]
pub enum PicklistType {
    Standard,
}

impl Default for PicklistType {
    fn default() -> (s: Self)
        ensures
            s == PicklistType::Standard,
    {
        PicklistType::Standard
    }
}

} // verus!
