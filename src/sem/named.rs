//! Named IPC semaphores.
//!
//! A named semaphore lives in a registry of the kernel, under a name that
//! begins with a `/` and holds no other. `OpenOptions::open` gives the
//! `sem_open` call; `SemOpen::finish` reads its answer.

use vstd::prelude::*;
use crate::error::Error;
use crate::name::{c_name, valid_name};
use crate::sem::{RawSemaphore, SemCall, SemOp};
use crate::sys;

verus! {

/// The `oflag` of `sem_open`: `O_CREAT` (64) to create a missing semaphore,
/// `O_EXCL | O_CREAT` (128 | 64) to create one that must not exist yet.
pub open spec fn sem_oflag_spec(create: bool, create_new: bool) -> i32 {
    0i32 | (if create { 64i32 } else { 0i32 }) | (if create_new { 128i32 | 64i32 } else { 0i32 })
}

/// Asking to create a new semaphore always asks the kernel for an exclusive
/// creation (`O_EXCL` and `O_CREAT`), so an existing name makes the call
/// fail; without it, the call never asks for exclusivity.
pub proof fn lemma_create_new_is_exclusive(create: bool, create_new: bool)
    ensures
        create_new ==> sem_oflag_spec(create, create_new) & 128i32 != 0
            && sem_oflag_spec(create, create_new) & 64i32 != 0,
        !create_new ==> sem_oflag_spec(create, create_new) & 128i32 == 0,
        (sem_oflag_spec(create, create_new) & 64i32 != 0) == (create || create_new),
{
    let c: i32 = if create { 64i32 } else { 0i32 };
    let n: i32 = if create_new { 128i32 | 64i32 } else { 0i32 };
    assert(sem_oflag_spec(create, create_new) == 0i32 | c | n);
    assert((c == 0 || c == 64) && (n == 0 || n == 192) ==> {
        &&& (n == 192 ==> (0i32 | c | n) & 128i32 != 0 && (0i32 | c | n) & 64i32 != 0)
        &&& (n == 0 ==> (0i32 | c | n) & 128i32 == 0)
        &&& ((0i32 | c | n) & 64i32 != 0) == (c == 64 || n == 192)
    }) by (bit_vector);
    assert(128i32 | 64i32 == 192i32) by (bit_vector);
}

/// A POSIX named semaphore: the handle `sem_open` returned.
pub struct Semaphore {
    raw: RawSemaphore,
}

/// The `sem_open` call of a named semaphore.
#[derive(Debug)]
pub struct SemOpen {
    name: Vec<u8>,
    oflag: i32,
    mode: u32,
    value: u32,
}

/// A builder for `Semaphore`s.
#[derive(Debug, Clone, Copy)]
pub struct OpenOptions {
    create: bool,
    create_new: bool,
    mode: u32,
    value: u32,
}

impl View for Semaphore {
    /// The handle.
    type V = usize;

    closed spec fn view(&self) -> usize {
        self.raw.addr
    }
}

impl SemOpen {
    /// The name, NUL-terminated.
    pub closed spec fn name_spec(&self) -> Seq<u8> {
        self.name@
    }

    /// The open flags.
    pub closed spec fn oflag_spec(&self) -> i32 {
        self.oflag
    }

    /// The access mode of a semaphore this call creates.
    pub closed spec fn mode_spec(&self) -> u32 {
        self.mode
    }

    /// The count of a semaphore this call creates.
    pub closed spec fn value_spec(&self) -> u32 {
        self.value
    }

    /// The name, NUL-terminated.
    pub fn name(&self) -> (r: &[u8])
        ensures
            r@ == self.name_spec(),
    {
        self.name.as_slice()
    }

    /// The open flags.
    pub fn oflag(&self) -> (r: i32)
        ensures
            r == self.oflag_spec(),
    {
        self.oflag
    }

    /// The access mode of a semaphore this call creates.
    pub fn mode(&self) -> (r: u32)
        ensures
            r == self.mode_spec(),
    {
        self.mode
    }

    /// The count of a semaphore this call creates.
    pub fn value(&self) -> (r: u32)
        ensures
            r == self.value_spec(),
    {
        self.value
    }

    /// Reads the answer to `sem_open`: `SEM_FAILED` (null) gives the error
    /// the kernel reported, any other value is the semaphore's handle.
    pub fn finish(self, ret: usize, errno: i32) -> (r: Result<Semaphore, Error>)
        ensures
            r is Err <==> ret == 0,
            r matches Err(e) ==> e == Error::Os(errno),
            r matches Ok(s) ==> s@ == ret,
    {
        if ret == sys::sem_failed() {
            Err(Error::Os(errno))
        } else {
            Ok(Semaphore { raw: RawSemaphore { addr: ret } })
        }
    }
}

impl Semaphore {
    /// Opens an existing IPC semaphore.
    ///
    /// The name must begin with a `/` and contain no further `/`s.
    pub fn open(name: &[u8]) -> (r: Result<SemOpen, Error>)
        ensures
            r is Err <==> !valid_name(name@),
            r matches Err(e) ==> e == Error::InvalidInput,
            r matches Ok(c) ==> c.name_spec() == name@.push(0u8) && c.oflag_spec()
                == sem_oflag_spec(false, false) && c.mode_spec() == 0o666 && c.value_spec() == 0,
    {
        OpenOptions::new().open(name)
    }

    /// Opens an IPC semaphore, creating it if it does not already exist.
    ///
    /// The name must begin with a `/` and contain no further `/`s.
    pub fn create(name: &[u8]) -> (r: Result<SemOpen, Error>)
        ensures
            r is Err <==> !valid_name(name@),
            r matches Err(e) ==> e == Error::InvalidInput,
            r matches Ok(c) ==> c.name_spec() == name@.push(0u8) && c.oflag_spec()
                == sem_oflag_spec(true, false) && c.mode_spec() == 0o666 && c.value_spec() == 0,
    {
        let mut options = OpenOptions::new();
        options.create(true);
        options.open(name)
    }

    /// Decrements the semaphore by 1, blocking if semaphore's value is 0.
    pub fn wait(&self) -> (r: SemCall)
        ensures
            r == (SemCall { op: SemOp::Wait, addr: self@ }),
    {
        self.raw.call(SemOp::Wait)
    }

    /// Increments the semaphore by 1.
    pub fn post(&self) -> (r: SemCall)
        ensures
            r == (SemCall { op: SemOp::Post, addr: self@ }),
    {
        self.raw.call(SemOp::Post)
    }

    /// Gives up the handle: the value to hand to `sem_close`, once.
    pub fn close(self) -> (r: usize)
        ensures
            r == self@,
    {
        self.raw.addr
    }
}

impl OpenOptions {
    /// Whether a missing semaphore is created.
    pub closed spec fn creates(&self) -> bool {
        self.create
    }

    /// Whether the semaphore must not exist yet.
    pub closed spec fn creates_new(&self) -> bool {
        self.create_new
    }

    /// The access mode of a semaphore that is created.
    pub closed spec fn mode_spec(&self) -> u32 {
        self.mode
    }

    /// The count of a semaphore that is created.
    pub closed spec fn value_spec(&self) -> u32 {
        self.value
    }

    /// Creates a new `OpenOptions` with default settings: open only an
    /// existing semaphore; mode 0o666 and count 0 for one that is created.
    pub fn new() -> (r: OpenOptions)
        ensures
            !r.creates(),
            !r.creates_new(),
            r.mode_spec() == 0o666,
            r.value_spec() == 0,
    {
        OpenOptions { create: false, create_new: false, mode: 0o666, value: 0 }
    }

    /// Sets the option for creating a new semaphore.
    ///
    /// This option indicates whether a new semaphore will be created if it does
    /// not already exist.
    pub fn create(&mut self, create: bool) -> (r: &mut OpenOptions)
        ensures
            r.creates() == create,
            r.creates_new() == old(self).creates_new(),
            r.mode_spec() == old(self).mode_spec(),
            r.value_spec() == old(self).value_spec(),
            *final(self) == *final(r),
    {
        self.create = create;
        self
    }

    /// Sets the option to always create a new semaphore.
    ///
    /// This option indicates whether a new semaphore will be created. If the
    /// semaphore already exists, the operation will fail. This check happens
    /// atomically.
    ///
    /// If this option is set, the value of `create` is ignored.
    pub fn create_new(&mut self, create_new: bool) -> (r: &mut OpenOptions)
        ensures
            r.creates_new() == create_new,
            r.creates() == old(self).creates(),
            r.mode_spec() == old(self).mode_spec(),
            r.value_spec() == old(self).value_spec(),
            *final(self) == *final(r),
    {
        self.create_new = create_new;
        self
    }

    /// Sets the access mode use when creating a new semaphore.
    ///
    /// If the semaphore already exists, this is ignored.
    pub fn mode(&mut self, mode: u32) -> (r: &mut OpenOptions)
        ensures
            r.mode_spec() == mode,
            r.creates() == old(self).creates(),
            r.creates_new() == old(self).creates_new(),
            r.value_spec() == old(self).value_spec(),
            *final(self) == *final(r),
    {
        self.mode = mode;
        self
    }

    /// Sets the initial value of the semaphore.
    ///
    /// If the semaphore already exists, this is ignored.
    pub fn value(&mut self, value: u32) -> (r: &mut OpenOptions)
        ensures
            r.value_spec() == value,
            r.creates() == old(self).creates(),
            r.creates_new() == old(self).creates_new(),
            r.mode_spec() == old(self).mode_spec(),
            *final(self) == *final(r),
    {
        self.value = value;
        self
    }

    /// The open flags these options ask for.
    pub fn oflag(&self) -> (r: i32)
        ensures
            r == sem_oflag_spec(self.creates(), self.creates_new()),
    {
        let create: i32 = if self.create { sys::o_creat() } else { 0 };
        let create_new: i32 = if self.create_new { sys::o_excl() | sys::o_creat() } else { 0 };
        0 | create | create_new
    }

    /// Opens a named semaphore: the `sem_open` call for `name`.
    ///
    /// The name must begin with a `/` and contain no further `/`s; the kernel
    /// holds it to that. A name with a NUL byte cannot be handed over, and
    /// fails with `InvalidInput`.
    pub fn open(&self, name: &[u8]) -> (r: Result<SemOpen, Error>)
        ensures
            r is Err <==> !valid_name(name@),
            r matches Err(e) ==> e == Error::InvalidInput,
            r matches Ok(c) ==> c.name_spec() == name@.push(0u8) && c.oflag_spec()
                == sem_oflag_spec(self.creates(), self.creates_new()) && c.mode_spec()
                == self.mode_spec() && c.value_spec() == self.value_spec(),
    {
        let name = match c_name(name) {
            Ok(n) => n,
            Err(e) => return Err(e),
        };
        let oflag = self.oflag();
        Ok(SemOpen { name, oflag, mode: self.mode, value: self.value })
    }
}

/// Removes a named semaphore: the name, NUL-terminated, to hand to
/// `sem_unlink`.
///
/// A name with a NUL byte fails with `InvalidInput`.
pub fn unlink(name: &[u8]) -> (r: Result<Vec<u8>, Error>)
    ensures
        r is Err <==> !valid_name(name@),
        r matches Err(e) ==> e == Error::InvalidInput,
        r matches Ok(v) ==> v@ == name@.push(0u8),
{
    c_name(name)
}

} // verus!
