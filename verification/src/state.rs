//! The shared state buffer: an owned, fixed-length sequence of one-byte
//! cells guarded by a mutual-exclusion lock. A producer thread holds one
//! handle and writes whole snapshots; the render side holds another and
//! copies snapshots out through the refresh protocol. The length is fixed at
//! construction; the write contract rejects any payload of a different
//! length, so a reader never observes a partially written or resized
//! sequence.

use vstd::prelude::*;
use std::sync::{Arc, Mutex, MutexGuard, TryLockError};
use crate::BufferError;

verus! {

#[verifier::external_type_specification]
#[verifier::external_body]
#[verifier::reject_recursive_types(T)]
pub struct ExMutex<T: ?Sized>(Mutex<T>);

#[verifier::external_type_specification]
#[verifier::external_body]
#[verifier::reject_recursive_types(T)]
pub struct ExMutexGuard<'a, T: ?Sized + 'a>(MutexGuard<'a, T>);

/// What a non-blocking lock attempt observed.
pub(crate) enum TryReadOutcome {
    /// The lock was free: a copy of the whole guarded sequence.
    Data(Vec<u8>),
    /// Another holder had the lock; nothing was read.
    Contended,
    /// A holder terminated abnormally while holding the lock.
    Poisoned,
}

/// What a blocking lock acquisition observed.
pub(crate) enum ReadOutcome {
    Data(Vec<u8>),
    Poisoned,
}

/// What a blocking full-buffer store achieved.
pub(crate) enum StoreOutcome {
    Stored,
    Poisoned,
}

/// A shared-ownership handle to the lock-guarded cell sequence. Cloned
/// handles refer to the same sequence and the same lock.
pub struct SharedStateBuffer {
    len: usize,
    data: Arc<Mutex<Vec<u8>>>,
}

impl SharedStateBuffer {
    /// The fixed length declared at construction; the guarded sequence keeps
    /// this length because every write goes through the full-length-only
    /// write contract.
    pub closed spec fn spec_len(&self) -> int {
        self.len as int
    }

    /// Relies on std::sync::Mutex::new to place the cell sequence behind a
    /// fresh mutual-exclusion lock.
    #[verifier::external_body]
    fn mutex_new(data: Vec<u8>) -> Mutex<Vec<u8>> {
        Mutex::new(data)
    }

    /// Creates a buffer guarding exactly the cells of `data`.
    pub fn new(data: Vec<u8>) -> (r: SharedStateBuffer)
        ensures
            r.spec_len() == data@.len(),
    {
        let len = data.len();
        SharedStateBuffer { len, data: Arc::new(Self::mutex_new(data)) }
    }

    /// The buffer's fixed length.
    pub fn len(&self) -> (r: usize)
        ensures
            r == self.spec_len(),
    {
        self.len
    }

    /// Relies on std::sync::Arc::clone: the clone shares the same allocation
    /// and the same lock, so it equals this handle.
    #[verifier::external_body]
    pub(crate) fn clone_handle(&self) -> (r: SharedStateBuffer)
        ensures
            r == *self,
    {
        SharedStateBuffer { len: self.len, data: Arc::clone(&self.data) }
    }

    /// Relies on std::sync::Mutex::try_lock: an immediate, never-blocking
    /// attempt that either yields a copy of the whole guarded sequence,
    /// reports contention, or reports a poisoned lock. Which outcome comes
    /// back depends on what the other holder is doing at call time, so
    /// nothing is promised about it.
    #[verifier::external_body]
    pub(crate) fn try_read(&self) -> TryReadOutcome {
        match self.data.try_lock() {
            Ok(g) => TryReadOutcome::Data((*g).clone()),
            Err(TryLockError::WouldBlock) => TryReadOutcome::Contended,
            Err(TryLockError::Poisoned(_)) => TryReadOutcome::Poisoned,
        }
    }

    /// Relies on std::sync::Mutex::lock: waits until the lock is free, then
    /// yields a copy of the whole guarded sequence; a poisoned lock is
    /// reported instead of data.
    #[verifier::external_body]
    pub(crate) fn read_locked(&self) -> ReadOutcome {
        match self.data.lock() {
            Ok(g) => ReadOutcome::Data((*g).clone()),
            Err(_) => ReadOutcome::Poisoned,
        }
    }

    /// Relies on std::sync::Mutex::lock: waits until the lock is free, then
    /// replaces the guarded sequence, whole, with a copy of `payload`; on a
    /// poisoned lock nothing is written.
    #[verifier::external_body]
    pub(crate) fn store_locked(&self, payload: &Vec<u8>) -> StoreOutcome {
        match self.data.lock() {
            Ok(mut g) => {
                *g = payload.clone();
                StoreOutcome::Stored
            },
            Err(_) => StoreOutcome::Poisoned,
        }
    }

    /// Acquires the lock and hands the guard to the caller, who holds it
    /// until dropping it; an opportunistic refresh attempted meanwhile
    /// observes contention and copies nothing, and the blocking operations
    /// wait. Relies on std::sync::Mutex::lock; a poisoned lock is mapped to
    /// `LockPoisoned`. As with the underlying lock, acquiring again from
    /// the thread that already holds a guard may deadlock.
    #[verifier::external_body]
    pub fn lock<'a>(&'a self) -> (r: Result<MutexGuard<'a, Vec<u8>>, BufferError>)
        ensures
            r matches Err(e) ==> e == BufferError::LockPoisoned,
    {
        match self.data.lock() {
            Ok(g) => Ok(g),
            Err(_) => Err(BufferError::LockPoisoned),
        }
    }

    /// Blocking read of one full snapshot of the guarded sequence.
    ///
    /// Fails only with `LockPoisoned`, when a holder terminated abnormally
    /// while holding the lock.
    pub fn read(&self) -> (r: Result<Vec<u8>, BufferError>)
        ensures
            r matches Err(e) ==> e == BufferError::LockPoisoned,
    {
        match self.read_locked() {
            ReadOutcome::Data(v) => Ok(v),
            ReadOutcome::Poisoned => Err(BufferError::LockPoisoned),
        }
    }

    /// The producer's write: under the lock, overwrites the entire guarded
    /// sequence with `payload`.
    ///
    /// A payload whose length differs from the buffer length fails with
    /// `LengthMismatch` before the lock is even touched, and nothing is
    /// written; the buffer is never truncated or padded. A poisoned lock
    /// fails with `LockPoisoned`.
    pub fn write(&self, payload: &Vec<u8>) -> (r: Result<(), BufferError>)
        ensures
            (r matches Err(e) && e == BufferError::LengthMismatch) <==> payload@.len()
                != self.spec_len(),
            r matches Err(e) ==> e == BufferError::LengthMismatch || e == BufferError::LockPoisoned,
    {
        if payload.len() != self.len {
            return Err(BufferError::LengthMismatch);
        }
        match self.store_locked(payload) {
            StoreOutcome::Stored => Ok(()),
            StoreOutcome::Poisoned => Err(BufferError::LockPoisoned),
        }
    }
}

} // verus!
