//! The event that a menu selection produces.

use vstd::prelude::*;

verus! {

/// One accepted menu selection, identified by the id of the selected item.
#[derive(Clone, Copy, Debug, PartialEq, Eq, Structural)]
pub struct SystrayEvent {
    pub menu_index: u32,
}

} // verus!
