//! The state cell shared by the two halves of a subscription or
//! announcement.
use vstd::prelude::*;

verus! {

/// The contents of a shared state cell: the value, and whether the other
/// half has been dropped. Once the other half is gone the value can no
/// longer be changed and nobody waits for changes.
pub struct State<T> {
    pub value: T,
    pub dropped: bool,
}

impl<T> State<T> {
    /// A cell holding `value`, with both halves alive.
    pub fn new(value: T) -> (r: Self)
        ensures
            r.value == value,
            !r.dropped,
    {
        State { value, dropped: false }
    }

    /// Record that the other half has been dropped.
    pub fn mark_dropped(&mut self)
        ensures
            final(self).value == old(self).value,
            final(self).dropped,
    {
        self.dropped = true;
    }
}

} // verus!
