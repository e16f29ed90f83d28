//! Theme of the application.

use vstd::prelude::*;

verus! {

/// Theme of the application.
#[derive(Clone, Copy, Debug, PartialEq, Eq, Structural)]
pub enum StyleType {
    Venus,
    SemiTransparent,
}

impl Default for StyleType {
    fn default() -> (s: Self)
        ensures
            s == StyleType::Venus,
    {
        StyleType::Venus
    }
}

} // verus!
