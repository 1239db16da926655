//! The lock and its write guard.
//!
//! The lock keeps a [`Slot`] behind a reader-writer lock, and a mutex that is
//! the writer token. A reader never asks for the token, so no guard, however
//! long it lives, holds a reader up. A reader does take shared access to the
//! slot for as long as it takes to get a handle, and there it waits while a
//! release has, or has asked for, exclusive access, which a release holds for
//! one exchange of the published cell.
//!
//! What a step does to the published version is stated and proved on `Slot`.
//! The functions here say which steps are made and in which order; what they
//! find in the slot depends on the other threads.

use crate::slot::Slot;
use crate::sync::{
    cell_new, cell_read, cell_write, exclusive, shared, token_acquire, token_new, Token,
};
use parking_lot::{Mutex, RwLock};
use std::ops::{Deref, DerefMut};
use std::sync::Arc;
use vstd::prelude::*;

verus! {

/// A lock whose readers never wait for a writer's guard and which admits one
/// writer at a time.
#[derive(Debug)]
#[verifier::reject_recursive_types(T)]
pub struct RcuLock<T> {
    /// The published version.
    inner: RwLock<Slot<T>>,
    /// Held by the one writer that has been admitted, from `write` until its
    /// guard is dropped.
    write_lock: Mutex<()>,
}

/// The admitted writer's private copy of the value. Dropping the guard
/// publishes the copy itself and admits the next writer.
#[verifier::reject_recursive_types(T)]
pub struct RcuGuard<'a, T: Clone + Send + 'static> {
    lock: &'a RcuLock<T>,
    /// The staged value; it is there for as long as the guard lives.
    data: Option<T>,
    _guard: Token<'a>,
    /// The version that the release replaced. It is let go of with the
    /// guard's fields, after the release and after the token.
    retired: Option<Arc<T>>,
}

impl<T: Clone + Send + 'static> RcuLock<T> {
    /// A lock whose first published version is `target`, with the writer
    /// token free.
    pub fn new(target: T) -> (lock: RcuLock<T>) {
        RcuLock { inner: cell_new(Slot::new(target)), write_lock: token_new() }
    }

    /// A handle to the version that is published when the slot is looked at:
    /// the result of `Slot::load` on the slot as it then stands. The writer
    /// token is not touched, so a live guard does not hold a reader up.
    pub fn read(&self) -> (handle: Arc<T>) {
        let access = cell_read(&self.inner);
        shared(&access).load()
    }

    /// Waits for the writer token, then hands out a guard over the result of
    /// `Slot::stage` on the slot as it then stands. Until the guard is
    /// dropped no other call of `write` returns; a second call from the
    /// thread that holds the guard never returns.
    pub fn write(&self) -> (guard: RcuGuard<'_, T>)
        ensures
            guard.owner() == *self,
    {
        let token = token_acquire(&self.write_lock);
        let staged = self.stage();
        RcuGuard { lock: self, data: Some(staged), _guard: token, retired: None }
    }

    /// Takes shared access to the slot for one `Slot::stage`.
    fn stage(&self) -> (staged: T) {
        let access = cell_read(&self.inner);
        shared(&access).stage()
    }

    /// Takes exclusive access to the slot for one `Slot::publish_from`: the
    /// value in `staged` is moved into the slot and the version that it
    /// replaces is left in `retired`. Called on a guard's fields, where
    /// `retired` is empty, it runs no code of `T`: the value is not cloned,
    /// and nothing is dropped.
    fn release(&self, staged: &mut Option<T>, retired: &mut Option<Arc<T>>)
        ensures
            *final(staged) is None,
            *old(staged) is Some ==> *final(retired) is Some,
            *old(staged) is None ==> *final(retired) == *old(retired),
    {
        let mut access = cell_write(&self.inner);
        exclusive(&mut access).publish_from(staged, retired);
    }
}

/// The value in `data`, to be changed in place.
fn staged_mut<T>(data: &mut Option<T>) -> (value: &mut T)
    requires
        *old(data) is Some,
    ensures
        *value == old(data).unwrap(),
        *final(data) == Some(*final(value)),
    no_unwind
{
    match data {
        Some(value) => value,
        None => unreached(),
    }
}

impl<'a, T: Clone + Send + 'static> RcuGuard<'a, T> {
    #[verifier::type_invariant]
    spec fn live(self) -> bool {
        &&& self.data is Some
        &&& self.retired is None
    }

    /// The writer's private copy.
    pub closed spec fn view(&self) -> T {
        self.data.unwrap()
    }

    /// The lock that handed the guard out.
    pub closed spec fn owner(&self) -> RcuLock<T> {
        *self.lock
    }
}

impl<'a, T: Clone + Send + 'static> Deref for RcuGuard<'a, T> {
    type Target = T;

    /// The staged value.
    fn deref(&self) -> (value: &T)
        ensures
            *value == self@,
    {
        proof {
            use_type_invariant(self);
        }
        self.data.as_ref().unwrap()
    }
}

impl<'a, T: Clone + Send + 'static> DerefMut for RcuGuard<'a, T> {
    /// The staged value, to be changed in place. What is written through the
    /// reference is the guard's staged value afterwards; the guard still
    /// belongs to the same lock.
    fn deref_mut(&mut self) -> (value: &mut T)
        ensures
            *value == old(self)@,
            final(self)@ == *final(value),
            final(self).owner() == old(self).owner(),
    {
        proof {
            use_type_invariant(&*self);
        }
        staged_mut(&mut self.data)
    }
}

impl<'a, T: Clone + Send + 'static> Drop for RcuGuard<'a, T> {
    /// Releases the staged value into the owner's slot. The replaced version
    /// and the writer token are let go of after this returns, with the
    /// guard's fields.
    ///
    /// Trusted: the verifier holds a guard to its invariant, that the staged
    /// value is in place, at the end of every function that it reads, and
    /// the release is what takes the value out. The body is one call of
    /// `RcuLock::release`, which is verified and makes one
    /// `Slot::publish_from` under exclusive access. No code of `T` runs in
    /// it, so nothing in it unwinds.
    #[verifier::external_body]
    fn drop(&mut self)
        opens_invariants none
        no_unwind
    {
        self.lock.release(&mut self.data, &mut self.retired);
    }
}

} // verus!
