//! A minimal capability trait with a single implementor: a door that can be
//! brought into the open state.

use vstd::prelude::*;

verus! {

/// Anything that can be brought into an open state.
pub trait Openable {
    /// Whether the value currently counts as open.
    spec fn openness(&self) -> bool;

    /// Bring the value into the open state.
    fn open(&mut self)
        ensures
            final(self).openness(),
    ;
}

/// A door, which is either open or shut.
pub struct Door {
    pub is_open: bool,
}

impl Door {
    /// Make a door in the given state.
    pub fn new(is_open: bool) -> (door: Door)
        ensures
            door.is_open == is_open,
    {
        Door { is_open: is_open }
    }
}

impl Openable for Door {
    open spec fn openness(&self) -> bool {
        self.is_open
    }

    fn open(&mut self)
        ensures
            final(self).is_open,
    {
        self.is_open = true;
    }
}

} // verus!
