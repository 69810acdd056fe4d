use std::ops::{Deref, DerefMut};
use std::sync::Arc;
use vstd::prelude::*;

verus! {

/// Atomically reference-counted, copy-on-write shared pointer.
pub struct Arcow<T: Clone> {
    inner: Arc<T>,
}

impl<T: Clone> View for Arcow<T> {
    type V = T;

    /// The value this handle reads: clones share it until one of them writes.
    closed spec fn view(&self) -> T {
        *self.inner
    }
}

impl<T: Clone> Arcow<T> {
    /// Wrap the given value in a new handle with a fresh allocation of its own.
    pub fn new(inner: T) -> (r: Arcow<T>)
        ensures
            r@ == inner,
    {
        Arcow { inner: Arc::new(inner) }
    }

    /// The number of handles that share this handle's allocation, this one included.
    ///
    /// A result of 1 means the next write happens in place; more than 1 means it
    /// will first split this handle off onto a copy. Other threads may clone or drop
    /// handles to the same allocation at any time, so this is a hint only.
    pub fn count(myself: &Arcow<T>) -> (r: usize)
        ensures
            r >= 1,
    {
        strong_count(&myself.inner)
    }

    /// Read access to the value. Never copies and never touches the count.
    pub fn get(&self) -> (r: &T)
        ensures
            *r == self@,
    {
        &*self.inner
    }

    /// Write access to this handle's value, and to no other handle's.
    ///
    /// A handle that is the only one on its allocation is written in place. A
    /// shared one is first split off: its value is cloned into a fresh allocation
    /// that this handle moves to, and the other handles keep the old one.
    pub fn get_mut(&mut self) -> (r: &mut T)
        ensures
            cloned::<T>(old(self)@, *r),
            final(self)@ == *final(r),
    {
        make_mut(&mut self.inner)
    }
}

impl<T: Clone> Clone for Arcow<T> {
    /// Another handle on the same allocation: the count goes up by one and the
    /// value is not copied.
    fn clone(&self) -> (r: Arcow<T>)
        ensures
            r@ == self@,
    {
        Arcow { inner: Arc::clone(&self.inner) }
    }
}

impl<T: Clone> Deref for Arcow<T> {
    type Target = T;

    fn deref(&self) -> (r: &T)
        ensures
            *r == self@,
    {
        self.get()
    }
}

impl<T: Clone> DerefMut for Arcow<T> {
    fn deref_mut(&mut self) -> (r: &mut T)
        ensures
            cloned::<T>(old(self)@, *r),
            final(self)@ == *final(r),
    {
        self.get_mut()
    }
}

/// Relies on `Arc::strong_count`: the number of strong pointers to the allocation
/// that `a` points to, `a` among them.
#[verifier::external_body]
fn strong_count<T>(a: &Arc<T>) -> (r: usize)
    ensures
        r >= 1,
{
    Arc::strong_count(a)
}

/// Relies on `Arc::make_mut`: the view it returns is the value that `a` then points
/// to, and that value is the old one or, where other pointers shared the
/// allocation, a clone of it in a fresh allocation.
#[verifier::external_body]
fn make_mut<T: Clone>(a: &mut Arc<T>) -> (r: &mut T)
    ensures
        cloned::<T>(**old(a), *r),
        **final(a) == *final(r),
{
    Arc::make_mut(a)
}

} // verus!
