//! Unnamed IPC semaphores.
//!
//! An unnamed semaphore's control block lives in memory the caller provides,
//! most often a shared mapping. Its life runs `SemInit` (the `sem_init` call
//! still to be made), `Semaphore` (the one owner of an initialized block),
//! `SemDestroy` (the `sem_destroy` call that ends it). Each step consumes the
//! value before it, so a block is initialized and destroyed once per owner.
//! A `SemaphoreRef` only waits and posts: no call it hands out can start or
//! end a block's life.
//!
//! The block must stay mapped, and initialized, for as long as any handle to
//! it is used. No process can check that for another: callers agree on it.

use vstd::prelude::*;
use crate::error::Error;
use crate::sem::{RawSemaphore, SemCall, SemOp};

verus! {

/// The `sem_init` call that sets up the control block at `addr` with count
/// `value`, shared between processes.
#[derive(Debug)]
pub struct SemInit {
    addr: usize,
    value: u32,
}

/// The `sem_destroy` call that ends the life of the control block at `addr`.
#[derive(Debug, Clone, Copy, PartialEq, Eq, Structural)]
pub struct SemDestroy {
    /// The address of the control block.
    pub addr: usize,
}

/// An owned, unnamed, IPC semaphore.
pub struct Semaphore {
    raw: RawSemaphore,
}

/// An unowned, unnamed, IPC semaphore.
pub struct SemaphoreRef {
    raw: RawSemaphore,
}

impl View for SemInit {
    /// The address of the control block, and the count it starts with.
    type V = (usize, u32);

    closed spec fn view(&self) -> (usize, u32) {
        (self.addr, self.value)
    }
}

impl View for Semaphore {
    /// The address of the control block.
    type V = usize;

    closed spec fn view(&self) -> usize {
        self.raw.addr
    }
}

impl View for SemaphoreRef {
    /// The address of the control block.
    type V = usize;

    closed spec fn view(&self) -> usize {
        self.raw.addr
    }
}

impl SemInit {
    /// The address of the control block.
    pub fn addr(&self) -> (r: usize)
        ensures
            r == self@.0,
    {
        self.addr
    }

    /// The `pshared` argument: 1, for a block shared between processes.
    pub fn pshared(&self) -> (r: i32)
        ensures
            r == 1,
    {
        1
    }

    /// The count the block starts with.
    pub fn value(&self) -> (r: u32)
        ensures
            r == self@.1,
    {
        self.value
    }

    /// Reads the answer to `sem_init`: on success, the owner of the block.
    ///
    /// A platform that refuses semaphores shared between processes fails here;
    /// the error is the kernel's, and nothing else is tried in its place.
    pub fn finish(self, ret: i32, errno: i32) -> (r: Result<Semaphore, Error>)
        ensures
            r is Err <==> ret != 0,
            r matches Err(e) ==> e == Error::Os(errno),
            r matches Ok(s) ==> s@ == self@.0,
    {
        if ret == 0 {
            Ok(Semaphore { raw: RawSemaphore { addr: self.addr } })
        } else {
            Err(Error::Os(errno))
        }
    }
}

impl Semaphore {
    /// Initializes an unnamed semaphore: the `sem_init` call for the control
    /// block at `sem`, with count `value`.
    ///
    /// The semaphore is configured for use by multiple processes. Some
    /// platforms such as OSX and FreeBSD do not support unnamed semaphores,
    /// and there the call always fails.
    ///
    /// The memory at `sem` must remain valid for the lifetime of the owner.
    pub fn new(sem: usize, value: u32) -> (r: SemInit)
        ensures
            r@ == (sem, value),
    {
        SemInit { addr: sem, value }
    }

    /// Decrements the semaphore by 1, blocking if semaphore's value is 0.
    pub fn wait(&self) -> (r: SemCall)
        ensures
            r == (SemCall { op: SemOp::Wait, addr: self@ }),
    {
        self.raw.call(SemOp::Wait)
    }

    /// Attempts to decrement the semaphore by 1, failing with `TryWaitError`
    /// if the semaphore's value is 0.
    pub fn try_wait(&self) -> (r: SemCall)
        ensures
            r == (SemCall { op: SemOp::TryWait, addr: self@ }),
    {
        self.raw.call(SemOp::TryWait)
    }

    /// Increments the semaphore by 1.
    pub fn post(&self) -> (r: SemCall)
        ensures
            r == (SemCall { op: SemOp::Post, addr: self@ }),
    {
        self.raw.call(SemOp::Post)
    }

    /// Ends the semaphore's life: the `sem_destroy` call for its block. The
    /// owner is consumed, so no call can follow.
    pub fn destroy(self) -> (r: SemDestroy)
        ensures
            r == (SemDestroy { addr: self@ }),
    {
        SemDestroy { addr: self.raw.addr }
    }
}

impl SemaphoreRef {
    /// Creates a new `SemaphoreRef` referencing a previously initialized
    /// unnamed semaphore.
    ///
    /// The memory at `sem` must hold an initialized semaphore for the lifetime
    /// of the reference.
    pub fn new(sem: usize) -> (r: SemaphoreRef)
        ensures
            r@ == sem,
    {
        SemaphoreRef { raw: RawSemaphore { addr: sem } }
    }

    /// Decrements the semaphore by 1, blocking if semaphore's value is 0.
    pub fn wait(&self) -> (r: SemCall)
        ensures
            r == (SemCall { op: SemOp::Wait, addr: self@ }),
    {
        self.raw.call(SemOp::Wait)
    }

    /// Increments the semaphore by 1.
    pub fn post(&self) -> (r: SemCall)
        ensures
            r == (SemCall { op: SemOp::Post, addr: self@ }),
    {
        self.raw.call(SemOp::Post)
    }
}

} // verus!
