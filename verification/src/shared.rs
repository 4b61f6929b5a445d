//! A cell that hands out shared or exclusive access to the data it holds.
use vstd::prelude::*;

verus! {

/// Holds a value and lends it out, shared or exclusively.
pub struct UpSafeCell<T> {
    inner: T,
}

impl<T> UpSafeCell<T> {
    /// The value held.
    pub closed spec fn value(&self) -> T {
        self.inner
    }

    /// A cell holding `data`.
    pub fn new(data: T) -> (c: UpSafeCell<T>)
        ensures
            c.value() == data,
    {
        UpSafeCell { inner: data }
    }

    /// Exclusive access: what is written through the reference is what the
    /// cell holds afterwards.
    pub fn exclusive_access(&mut self) -> (r: &mut T)
        ensures
            *r == old(self).value(),
            final(self).value() == *final(r),
    {
        &mut self.inner
    }

    /// Shared access to the value held.
    pub fn access(&self) -> (r: &T)
        ensures
            *r == self.value(),
    {
        &self.inner
    }
}

} // verus!
