//! The shared capture buffer: an append-only byte buffer behind a
//! mutual-exclusion lock, drained atomically by the collector.

use std::sync::Arc;
use vstd::prelude::*;
use vstd::rwlock::{RwLock, RwLockPredicate};

verus! {

/// Lock predicate for the capture buffer: any byte sequence may be stored.
pub struct AnyBytes;

impl RwLockPredicate<Vec<u8>> for AnyBytes {
    open spec fn inv(self, v: Vec<u8>) -> bool {
        true
    }
}

/// A handle to a shared, lock-protected byte buffer.
///
/// Any number of handles may refer to the same underlying buffer (the logging
/// framework asks for one writer per output destination); they are duplicated
/// with [`CaptureBuffer::duplicate`]. Writers append through [`CaptureBuffer::append`];
/// the collector empties the buffer with [`CaptureBuffer::drain`] or
/// [`CaptureBuffer::clear`]. All accesses serialize through the lock, so
/// concurrent writes are appended whole, in some order, with no bytes lost or
/// duplicated. The underlying storage is freed when the last handle is
/// dropped.
///
/// Because every operation of this crate releases the lock before returning,
/// and none of them panics while holding it, acquiring the lock cannot fail.
pub struct CaptureBuffer {
    lock: Arc<RwLock<Vec<u8>, AnyBytes>>,
}

impl CaptureBuffer {
    /// Creates a fresh, empty capture buffer.
    pub fn new() -> Self {
        CaptureBuffer { lock: Arc::new(RwLock::new(Vec::new(), Ghost(AnyBytes))) }
    }

    /// Produces another handle to the very same underlying buffer.
    pub fn duplicate(&self) -> (r: Self)
        ensures
            r == *self,
    {
        CaptureBuffer { lock: clone_arc(&self.lock) }
    }

    /// Appends the given bytes at the end of the buffer, in order, while
    /// holding the lock exclusively, and returns how many bytes were written.
    /// All of the bytes are written; none are reordered or dropped.
    pub fn append(&self, bytes: &[u8]) -> (n: usize)
        ensures
            n == bytes@.len(),
    {
        let (mut contents, handle) = self.lock.acquire_write();
        contents.extend_from_slice(bytes);
        handle.release_write(contents);
        bytes.len()
    }

    /// Atomically swaps the buffer's contents out for an empty buffer and
    /// returns the bytes accumulated since the previous drain. Writers that
    /// run concurrently begin filling the fresh, empty buffer at once.
    pub fn drain(&self) -> Vec<u8> {
        let (contents, handle) = self.lock.acquire_write();
        handle.release_write(Vec::new());
        contents
    }

    /// Discards the buffer's contents without returning them.
    pub fn clear(&self) {
        let (_contents, handle) = self.lock.acquire_write();
        handle.release_write(Vec::new());
    }

    /// Empties the buffer and shrinks its storage to its minimum footprint,
    /// so that whatever outlives the collector retains only a fixed, small
    /// allocation no matter how many bytes were ever written.
    pub fn purge(&self) {
        let (mut contents, handle) = self.lock.acquire_write();
        contents.clear();
        shrink_vec(&mut contents);
        handle.release_write(contents);
    }

    /// The number of bytes the buffer's storage can currently hold without
    /// reallocating.
    pub fn retained_capacity(&self) -> usize {
        let read_handle = self.lock.acquire_read();
        let n = vec_capacity(read_handle.borrow());
        read_handle.release_read();
        n
    }
}

/// Relies on `Arc::clone`: the returned handle refers to the very same shared
/// allocation, so as a value it equals the original.
#[verifier::external_body]
fn clone_arc(a: &Arc<RwLock<Vec<u8>, AnyBytes>>) -> (r: Arc<RwLock<Vec<u8>, AnyBytes>>)
    ensures
        r == *a,
{
    Arc::clone(a)
}

/// Relies on `Vec::shrink_to`: only spare capacity is dropped; the contents
/// stay as they are.
#[verifier::external_body]
fn shrink_vec(v: &mut Vec<u8>)
    ensures
        final(v)@ == old(v)@,
{
    v.shrink_to(0)
}

/// Relies on `Vec::capacity`: the count of elements the vector can hold
/// without reallocating, which is never below its length.
#[verifier::external_body]
fn vec_capacity(v: &Vec<u8>) -> (r: usize)
    ensures
        r >= v@.len(),
{
    v.capacity()
}

} // verus!
