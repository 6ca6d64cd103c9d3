//! A take-once slot.
//!
//! One shape serves three roles around the allocation call: the capsule that
//! carries the caller's closure across the type-erased boundary (filled once,
//! taken once), the slot the closure's result is written into and read back
//! out of, and the storage for one value of `T` that the typed entry point
//! delivers. In every role the invariant is the same: a value put in is taken
//! out at most once, and taking demands that a value is present.

use vstd::prelude::*;

verus! {

/// Storage for at most one value of `T`.
///
/// The view of a slot is `Some(v)` while it holds `v` and `None` otherwise.
pub struct OnceSlot<T> {
    value: Option<T>,
}

impl<T> View for OnceSlot<T> {
    type V = Option<T>;

    closed spec fn view(&self) -> Option<T> {
        self.value
    }
}

impl<T> OnceSlot<T> {
    /// A slot that holds no value yet.
    pub fn empty() -> (slot: OnceSlot<T>)
        ensures
            slot@ is None,
    {
        OnceSlot { value: None }
    }

    /// A slot already holding `v`.
    pub fn full(v: T) -> (slot: OnceSlot<T>)
        ensures
            slot@ == Some(v),
    {
        OnceSlot { value: Some(v) }
    }

    /// Whether the slot currently holds a value.
    pub fn is_set(&self) -> (b: bool)
        ensures
            b == (self@ is Some),
    {
        self.value.is_some()
    }

    /// Stores `v` in the slot, which must be empty: a slot is filled once.
    pub fn put(&mut self, v: T)
        requires
            old(self)@ is None,
        ensures
            final(self)@ == Some(v),
    {
        self.value = Some(v);
    }

    /// Takes the held value out, leaving the slot empty.
    ///
    /// Demanding a present value is the consume-once discipline: after one
    /// `take` the slot reads empty, so verified code cannot take twice.
    pub fn take(&mut self) -> (v: T)
        requires
            old(self)@ is Some,
        ensures
            final(self)@ is None,
            old(self)@ == Some(v),
    {
        let opt = self.value.take();
        match opt {
            Some(v) => v,
            None => unreached(),
        }
    }

    /// Takes the held value out if one is present, leaving the slot empty.
    ///
    /// The total form of `take`, for callers that cannot prove presence and
    /// must test it at run time instead.
    pub fn try_take(&mut self) -> (v: Option<T>)
        ensures
            final(self)@ is None,
            v == old(self)@,
    {
        self.value.take()
    }
}

} // verus!
