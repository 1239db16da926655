//! A read-copy-update lock. Writers are admitted one at a time; each works on
//! a private copy, made once, which replaces the published version in one
//! step when its guard is dropped. Any number of readers take the published
//! version meanwhile. A reader never waits for a writer's guard; it may wait
//! for the moment in which a release exchanges the published cell, because
//! the cell is kept behind a reader-writer lock.

pub mod slot;
pub mod laws;
pub mod lock;
mod sync;

pub use lock::{RcuGuard, RcuLock};
pub use slot::Slot;
