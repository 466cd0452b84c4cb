//! Interrupting the execution of a WebAssembly module to take a snapshot of it.
use std::sync::atomic::AtomicBool;
use std::sync::{Arc, Mutex};
use vstd::prelude::*;

verus! {

/// Replaces the bytes that `buf` guards with `bytes`, using `Mutex::lock`
/// of std.  A lock poisoned by a panic elsewhere is used all the same.
/// Nothing is stated: the buffer is shared with other threads.
#[verifier::external_body]
fn replace_locked(buf: &Mutex<Vec<u8>>, bytes: Vec<u8>) {
    match buf.lock() {
        Ok(mut guarded) => *guarded = bytes,
        Err(poisoned) => *poisoned.into_inner() = bytes,
    }
}

/// How an interpreter asks whether it should stop to take a snapshot.
pub trait Interuption {
    fn check_interuption(&self) -> bool;
}

/// An interruption flag and the buffer that receives the snapshot, both
/// shared with whoever requests the interruption.
pub struct Implementer {
    interupted: Arc<AtomicBool>,
    buf: Arc<Mutex<Vec<u8>>>,
}

impl Interuption for Implementer {
    /// Whether an interruption has been requested.
    fn check_interuption(&self) -> bool {
        let flag: &AtomicBool = &self.interupted;
        flag.load(std::sync::atomic::Ordering::Relaxed)
    }
}

impl Implementer {
    /// The flag held.
    pub closed spec fn flag(self) -> Arc<AtomicBool> {
        self.interupted
    }

    /// The snapshot buffer held.
    pub closed spec fn snapshot_buffer(self) -> Arc<Mutex<Vec<u8>>> {
        self.buf
    }

    pub fn new(flag: Arc<AtomicBool>, snapshot_bytes: Arc<Mutex<Vec<u8>>>) -> (r: Self)
        ensures
            r.flag() == flag,
            r.snapshot_buffer() == snapshot_bytes,
    {
        Self { interupted: flag, buf: snapshot_bytes }
    }

    /// Requests an interruption by setting the shared flag.
    pub fn interupt(&self) {
        let flag: &AtomicBool = &self.interupted;
        flag.store(true, std::sync::atomic::Ordering::Relaxed);
    }

    /// Stores the bytes of a snapshot in the shared buffer.
    pub fn store_snapshot_bytes(&self, bytes: Vec<u8>) {
        let buf: &Mutex<Vec<u8>> = &self.buf;
        replace_locked(buf, bytes);
    }
}

} // verus!
