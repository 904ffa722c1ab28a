//! A result slot: empty until a fetch fills it, then read on every frame.
//! Sharing it between the fetch task and the readers is the caller's part:
//! a read-write lock around the slot makes each write all-or-nothing.

use vstd::prelude::*;

verus! {

/// An optional value that starts empty and is filled by a write.
pub struct Slot<T> {
    value: Option<T>,
}

impl<T> Slot<T> {
    /// What the slot holds.
    pub closed spec fn held(&self) -> Option<T> {
        self.value
    }

    /// The slot as it is made: empty.
    pub closed spec fn spec_empty() -> Slot<T> {
        Slot { value: None }
    }

    /// The slot after a write of `v`.
    pub closed spec fn spec_written(self, v: T) -> Slot<T> {
        Slot { value: Some(v) }
    }

    /// A new, empty slot.
    pub fn new() -> (r: Slot<T>)
        ensures
            r == Slot::<T>::spec_empty(),
    {
        Slot { value: None }
    }

    /// Fills the slot with `v`, replacing what it held.
    pub fn write(&mut self, v: T)
        ensures
            *final(self) == old(self).spec_written(v),
    {
        self.value = Some(v);
    }

    /// What the slot holds, if anything.
    pub fn read(&self) -> (r: Option<&T>)
        ensures
            r matches Some(x) ==> self.held() == Some(*x),
            r is None ==> self.held() is None,
    {
        self.value.as_ref()
    }

    /// Whether nothing was written yet.
    pub fn is_empty(&self) -> (r: bool)
        ensures
            r == self.held() is None,
    {
        self.value.is_none()
    }

    /// A slot reads as empty before any write, and as `v` after a write of
    /// `v`, whatever it held before; reading changes nothing.
    pub proof fn lemma_write_then_read(self, v: T)
        ensures
            Slot::<T>::spec_empty().held() is None,
            self.spec_written(v).held() == Some(v),
    {
    }
}

} // verus!
