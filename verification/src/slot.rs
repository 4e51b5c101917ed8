use vstd::pervasive::unreached;
use vstd::prelude::*;

verus! {

/// The single storage location owned by a cell.
///
/// At rest the slot is occupied: it holds one live value. While an update
/// is in progress the value is moved out and the slot is transiently
/// vacant; every completed operation leaves it occupied again.
#[derive(Debug)]
pub enum Slot<T> {
    /// The value has been moved out; only an in-progress update sees this.
    Vacant,
    /// The slot holds a live value.
    Occupied(T),
}

impl<T> Slot<T> {
    /// The value held by an occupied slot.
    pub open spec fn value(self) -> T
        recommends
            self is Occupied,
    {
        self->0
    }

    /// Moves the value out of an occupied slot, leaving it vacant.
    pub fn take(&mut self) -> (v: T)
        requires
            *old(self) is Occupied,
        ensures
            v == old(self).value(),
            *final(self) is Vacant,
    {
        let mut taken = Slot::Vacant;
        core::mem::swap(self, &mut taken);
        match taken {
            Slot::Occupied(v) => v,
            Slot::Vacant => unreached(),
        }
    }

    /// Writes a value into a vacant slot, making it occupied.
    pub fn reinstate(&mut self, v: T)
        requires
            *old(self) is Vacant,
        ensures
            *final(self) is Occupied,
            final(self).value() == v,
    {
        *self = Slot::Occupied(v);
    }
}

} // verus!
