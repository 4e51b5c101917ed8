use crate::slot::Slot;
use vstd::pervasive::unreached;
use vstd::prelude::*;

verus! {

/// A container that owns exactly one value and lets its holder mutate it
/// through pure state transformations.
///
/// Outside the dynamic extent of an update call the slot is always
/// occupied; an update moves the value out, runs a transformation that
/// consumes it by value, and reinstates the result before returning.
#[derive(Debug)]
pub struct PureCell<T> {
    slot: Slot<T>,
}

impl<T> View for PureCell<T> {
    type V = T;

    closed spec fn view(&self) -> T {
        self.slot.value()
    }
}

impl<T> PureCell<T> {
    /// The slot is occupied. Constructors establish this and every
    /// operation preserves it: a cell is transiently vacant only strictly
    /// inside an update call.
    pub closed spec fn wf(self) -> bool {
        self.slot is Occupied
    }

    /// Creates a new cell containing the given value.
    pub fn new(value: T) -> (cell: Self)
        ensures
            cell.wf(),
            cell@ == value,
    {
        Self { slot: Slot::Occupied(value) }
    }

    /// Returns a mutable reference to the underlying data.
    ///
    /// Exclusive access to the cell rules out an in-flight update, so the
    /// slot is occupied and the value can be handed out directly.
    pub fn get(&mut self) -> (r: &mut T)
        requires
            old(self).wf(),
        ensures
            *r == old(self)@,
            final(self).wf(),
            final(self)@ == *final(r),
    {
        match &mut self.slot {
            Slot::Occupied(v) => v,
            Slot::Vacant => unreached(),
        }
    }

    /// Updates the cell through a pure transformation of the old state and
    /// an external input.
    ///
    /// The current value is taken out of the slot, the transformation is
    /// applied to it and to `input`, the new state it returns is
    /// reinstated, and its output is returned to the caller. The new
    /// contents and the output are exactly one input-output pair admitted
    /// by the transformation's postcondition on the old contents.
    pub fn with<I, R, F: FnOnce(T, I) -> (T, R)>(&mut self, input: I, f: F) -> (out: R)
        requires
            old(self).wf(),
            call_requires(f, (old(self)@, input)),
        ensures
            final(self).wf(),
            call_ensures(f, (old(self)@, input), (final(self)@, out)),
    {
        let state = self.slot.take();
        let (new_state, out) = f(state, input);
        self.slot.reinstate(new_state);
        out
    }

    /// The no-input call shape: behaves exactly as [`Self::with`] invoked
    /// with a unit input, with the output fixed to unit as well.
    pub fn update<F: FnOnce(T, ()) -> (T, ())>(&mut self, f: F)
        requires
            old(self).wf(),
            call_requires(f, (old(self)@, ())),
        ensures
            final(self).wf(),
            call_ensures(f, (old(self)@, ()), (final(self)@, ())),
    {
        self.with((), f);
    }
}

} // verus!
