//! A pipe that a guest writes to while the host reads from it.
//!
//! Both ends share one buffer behind a reader-writer lock, so the host can
//! look at what the guest wrote while the guest is still running.
use std::io::Cursor;
use std::sync::{Arc, RwLock, RwLockReadGuard, RwLockWriteGuard};
use vstd::prelude::*;

verus! {

#[verifier::external_type_specification]
#[verifier::external_body]
#[verifier::reject_recursive_types(T)]
pub struct ExRwLock<T: ?Sized>(RwLock<T>);

#[verifier::external_type_specification]
#[verifier::external_body]
#[verifier::reject_recursive_types(T)]
pub struct ExRwLockReadGuard<'a, T: ?Sized>(RwLockReadGuard<'a, T>);

#[verifier::external_type_specification]
#[verifier::external_body]
#[verifier::reject_recursive_types(T)]
pub struct ExRwLockWriteGuard<'a, T: ?Sized + 'a>(RwLockWriteGuard<'a, T>);

#[verifier::external_type_specification]
#[verifier::external_body]
#[verifier::reject_recursive_types(T)]
pub struct ExCursor<T>(Cursor<T>);

/// Relies on `RwLock::new`: an unlocked lock around `inner`.
#[verifier::external_body]
fn new_lock<W>(inner: W) -> RwLock<W> {
    RwLock::new(inner)
}

/// Relies on `RwLock::try_write`: it never blocks, and gives `None` where
/// the lock is held, or was left poisoned by a writer that panicked.
#[verifier::external_body]
fn try_lock_for_write<W>(lock: &RwLock<W>) -> Option<RwLockWriteGuard<'_, W>> {
    lock.try_write().ok()
}

/// Relies on `RwLock::try_read`: it never blocks, and gives `None` where a
/// writer holds the lock, or left it poisoned.
#[verifier::external_body]
fn try_lock_for_read<W>(lock: &RwLock<W>) -> Option<RwLockReadGuard<'_, W>> {
    lock.try_read().ok()
}

/// Relies on `Cursor::new`: a cursor at the start of `inner`.
#[verifier::external_body]
fn new_cursor(inner: Vec<u8>) -> Cursor<Vec<u8>> {
    Cursor::new(inner)
}

/// This is a pipe that can be read from and written to.
/// Its clones share one buffer.
#[verifier::reject_recursive_types(W)]
pub struct ReadableWritePipe<W> {
    buf: Arc<RwLock<W>>,
}

impl<W> ReadableWritePipe<W> {
    /// Locks the buffer for writing, without waiting: `None` where it is
    /// locked already (a caller that must have it retries).
    pub fn borrow(&self) -> Option<RwLockWriteGuard<'_, W>> {
        try_lock_for_write(&self.buf)
    }

    /// Locks the buffer for reading, without waiting: `None` where a writer
    /// holds it (a caller that must have it retries).
    pub fn get_read_lock(&self) -> Option<RwLockReadGuard<'_, W>> {
        try_lock_for_read(&self.buf)
    }

    /// A pipe around `inner`.
    pub fn new(inner: W) -> Self {
        ReadableWritePipe { buf: Arc::new(new_lock(inner)) }
    }
}

impl ReadableWritePipe<Cursor<Vec<u8>>> {
    /// A pipe around an empty in-memory buffer.
    pub fn new_vec_buf() -> Self {
        Self::new(new_cursor(Vec::new()))
    }
}

impl<W> Clone for ReadableWritePipe<W> {
    fn clone(&self) -> Self {
        ReadableWritePipe { buf: Arc::clone(&self.buf) }
    }
}

} // verus!
