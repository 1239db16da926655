//! The two locks of `parking_lot` that the lock is built on, as far as the
//! verifier is told about them: their types, and one small function for each
//! of their methods that is called. Nothing is claimed of what a lock holds
//! when it is taken: another thread may have changed it in between.
//!
//! None of the functions here is given a contract, so no proof rests on
//! what the locks do. What is taken on trust is that the calls return: taking
//! a lock that the calling thread already holds does not. The lock's code
//! never holds access to the reader-writer lock across a call that takes it
//! again; the writer token is held for as long as a guard lives, and keeping
//! a thread from asking for it twice is left to the caller.

use parking_lot::{Mutex, MutexGuard, RwLock, RwLockReadGuard, RwLockWriteGuard};
use vstd::prelude::*;

verus! {

/// `parking_lot::RawMutex`, the raw lock under `parking_lot::Mutex`. Opaque.
#[verifier::external_type_specification]
#[verifier::external_body]
pub struct ExRawMutex(parking_lot::RawMutex);

/// `parking_lot::RawRwLock`, the raw lock under `parking_lot::RwLock`. Opaque.
#[verifier::external_type_specification]
#[verifier::external_body]
pub struct ExRawRwLock<const RECURSIVE: bool>(parking_lot::RawRwLock<RECURSIVE>);

/// `lock_api::Mutex`, of which `parking_lot::Mutex` is an alias. Opaque.
#[verifier::external_type_specification]
#[verifier::external_body]
#[verifier::reject_recursive_types(R)]
#[verifier::reject_recursive_types(T)]
pub struct ExMutex<R, T: ?Sized>(parking_lot::lock_api::Mutex<R, T>);

/// `lock_api::RwLock`, of which `parking_lot::RwLock` is an alias. Opaque.
#[verifier::external_type_specification]
#[verifier::external_body]
#[verifier::reject_recursive_types(R)]
#[verifier::reject_recursive_types(T)]
pub struct ExRwLock<R, T: ?Sized>(parking_lot::lock_api::RwLock<R, T>);

/// The writer token while it is held: a `parking_lot::MutexGuard`, which
/// frees the mutex when it is dropped. The guard's type is bounded by a
/// trait of `lock_api` that the verifier does not know, so it cannot be
/// declared as the locks are and is kept out of sight in this struct.
#[verifier::external_body]
pub struct Token<'a> {
    guard: MutexGuard<'a, ()>,
}

/// Shared access to what a reader-writer lock holds: a
/// `parking_lot::RwLockReadGuard`, which gives the access up when it is
/// dropped. Kept out of the verifier's sight like `Token`.
#[verifier::external_body]
#[verifier::reject_recursive_types(V)]
pub struct ReadAccess<'a, V> {
    guard: RwLockReadGuard<'a, V>,
}

/// Exclusive access to what a reader-writer lock holds: a
/// `parking_lot::RwLockWriteGuard`, which gives the access up when it is
/// dropped. Kept out of the verifier's sight like `Token`.
#[verifier::external_body]
#[verifier::reject_recursive_types(V)]
pub struct WriteAccess<'a, V> {
    guard: RwLockWriteGuard<'a, V>,
}

/// A free mutex. Calls `parking_lot::Mutex::new`; nothing is claimed.
#[verifier::external_body]
pub(crate) fn token_new() -> Mutex<()> {
    Mutex::new(())
}

/// Waits until the mutex is free and takes it. Calls
/// `parking_lot::Mutex::lock`, which blocks until then, and for ever if the
/// calling thread holds the mutex itself. Nothing is claimed of the result.
#[verifier::external_body]
pub(crate) fn token_acquire(token: &Mutex<()>) -> Token<'_> {
    Token { guard: token.lock() }
}

/// A reader-writer lock round `value`. Calls `parking_lot::RwLock::new`;
/// nothing is claimed.
#[verifier::external_body]
pub(crate) fn cell_new<V>(value: V) -> RwLock<V> {
    RwLock::new(value)
}

/// Takes shared access. Calls `parking_lot::RwLock::read`, which waits
/// while exclusive access is held or asked for, and panics only when the
/// count of readers that hold access at once overflows a `usize`. Nothing is
/// claimed of the result.
#[verifier::external_body]
pub(crate) fn cell_read<V>(cell: &RwLock<V>) -> ReadAccess<'_, V> {
    ReadAccess { guard: cell.read() }
}

/// Takes exclusive access. Calls `parking_lot::RwLock::write`, which waits
/// until no other access is held, and for ever if the calling thread holds
/// access itself. Nothing is claimed of the result.
#[verifier::external_body]
pub(crate) fn cell_write<V>(cell: &RwLock<V>) -> WriteAccess<'_, V> {
    WriteAccess { guard: cell.write() }
}

/// The value under shared access. Calls `Deref::deref` of
/// `RwLockReadGuard`; nothing is claimed of the value found.
#[verifier::external_body]
pub(crate) fn shared<'a, 'b, V>(access: &'a ReadAccess<'b, V>) -> &'a V {
    &access.guard
}

/// The value under exclusive access. Calls `DerefMut::deref_mut` of
/// `RwLockWriteGuard`; nothing is claimed of the value found.
#[verifier::external_body]
pub(crate) fn exclusive<'a, 'b, V>(access: &'a mut WriteAccess<'b, V>) -> &'a mut V {
    &mut access.guard
}

} // verus!
