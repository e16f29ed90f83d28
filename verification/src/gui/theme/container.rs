//! Style of a container.

use vstd::prelude::*;

verus! {

/// Style of a container.
#[derive(Clone, Copy, Debug, PartialEq, Eq, Structural)]
pub enum ContainerType {
    Standard,
    Tooltip,
    Badge,
    Modal,
    Video,
}

impl Default for ContainerType {
    fn default() -> (s: Self)
        ensures
            s == ContainerType::Standard,
    {
        ContainerType::Standard
    }
}

} // verus!
