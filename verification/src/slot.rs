//! The version slot: the published version of the protected value, held in a
//! reference-counted cell, with the steps that the lock performs on it.
//!
//! A version is never changed once it is published. A handle shares the cell,
//! a writer works on a copy, made once, and publishing moves that copy into a
//! fresh cell in the slot. The replaced cell is freed by its reference count, when
//! the last handle to it is dropped.

use std::sync::Arc;
use vstd::prelude::*;

verus! {

/// `handle` is what a reader gets from `slot`: the published version itself.
pub open spec fn loads<T>(slot: Slot<T>, handle: Arc<T>) -> bool {
    *handle == slot@
}

/// `staged` is what a writer gets from `slot`: a clone of the published
/// value.
pub open spec fn stages<T: Clone>(slot: Slot<T>, staged: T) -> bool {
    cloned(slot@, staged)
}

/// Publishing `staged` into `before` gives `after` and retires `retired`:
/// the new published value is `staged`, whole, and the retired version is the
/// one that was published before.
pub open spec fn publishes<T>(before: Slot<T>, staged: T, after: Slot<T>, retired: Arc<T>) -> bool {
    &&& after@ == staged
    &&& *retired == before@
}

/// Hands out one more handle to the version behind `version`.
///
/// Trusted: `Arc::clone` of std returns a pointer to the same allocation, so
/// the new handle and the old one hold the same value.
#[verifier::external_body]
fn share<T>(version: &Arc<T>) -> (handle: Arc<T>)
    ensures
        handle == *version,
{
    Arc::clone(version)
}

/// The slot that holds the published version.
#[derive(Debug)]
pub struct Slot<T> {
    current: Arc<T>,
}

impl<T> Slot<T> {
    /// The published value.
    pub closed spec fn view(&self) -> T {
        *self.current
    }

    /// A slot whose published version is `initial`.
    pub fn new(initial: T) -> (slot: Slot<T>)
        ensures
            slot@ == initial,
    {
        Slot { current: Arc::new(initial) }
    }

    /// A handle to the published version. The handle keeps that version alive
    /// and is not affected by any later `publish`.
    pub fn load(&self) -> (handle: Arc<T>)
        ensures
            loads(*self, handle),
    {
        share(&self.current)
    }

    /// A private copy of the published value, for a writer to work on. This
    /// is the one copy that a write makes.
    pub fn stage(&self) -> (staged: T) where T: Clone
        ensures
            stages(*self, staged),
    {
        T::clone(&self.current)
    }

    /// Installs `staged` as the published version and hands back the version
    /// that it replaces, which lives on until its last handle is dropped.
    pub fn publish(&mut self, staged: T) -> (retired: Arc<T>)
        ensures
            publishes(*old(self), staged, *final(self), retired),
    {
        let mut retired = Arc::new(staged);
        std::mem::swap(&mut self.current, &mut retired);
        retired
    }

    /// Releases a writer's work: moves the value out of `staged` and
    /// publishes that very value, and leaves the version that it replaces
    /// in `retired`, for the caller to let go of when it sees fit. Where
    /// `staged` is empty nothing is done.
    pub fn publish_from(&mut self, staged: &mut Option<T>, retired: &mut Option<Arc<T>>)
        ensures
            *final(staged) is None,
            match *old(staged) {
                Some(value) => *final(retired) is Some && publishes(
                    *old(self),
                    value,
                    *final(self),
                    final(retired).unwrap(),
                ),
                None => *final(self) == *old(self) && *final(retired) == *old(retired),
            },
    {
        match staged.take() {
            Some(value) => {
                *retired = Some(self.publish(value));
            },
            None => {},
        }
    }
}

} // verus!
