//! POSIX shared memory.
//!
//! A shared memory object lives under a name that begins with a `/` and
//! holds no other. `OpenOptions::open` gives the `shm_open` call;
//! `ShmOpen::finish` reads its answer. Resizing, reading the metadata and
//! duplicating the descriptor are plain file operations on it.

use vstd::prelude::*;
use crate::error::Error;
use crate::name::{c_name, valid_name};
use crate::sys;

verus! {

/// The `oflag` of `shm_open`: `O_RDWR` (2) or `O_RDONLY` (0), then
/// `O_CREAT` (64), `O_EXCL | O_CREAT` (128 | 64) and `O_TRUNC` (512) as asked.
pub open spec fn shm_oflag_spec(write: bool, create: bool, create_new: bool, truncate: bool) -> i32 {
    (if write { 2i32 } else { 0i32 }) | (if create { 64i32 } else { 0i32 }) | (if create_new {
        128i32 | 64i32
    } else {
        0i32
    }) | (if truncate { 512i32 } else { 0i32 })
}

/// A shared memory object: the descriptor `shm_open` returned.
pub struct SharedMemory {
    fd: i32,
}

/// The `shm_open` call of a shared memory object.
#[derive(Debug)]
pub struct ShmOpen {
    name: Vec<u8>,
    oflag: i32,
    mode: u32,
}

/// A builder type for `SharedMemory`.
#[derive(Debug, Clone, Copy)]
pub struct OpenOptions {
    write: bool,
    create: bool,
    create_new: bool,
    truncate: bool,
    mode: u32,
}

impl View for SharedMemory {
    /// The descriptor.
    type V = i32;

    closed spec fn view(&self) -> i32 {
        self.fd
    }
}

impl SharedMemory {
    /// The descriptor of the object, which stays owned by `self`.
    pub fn as_raw_fd(&self) -> (r: i32)
        ensures
            r == self@,
    {
        self.fd
    }

    /// Gives up the descriptor to the caller.
    pub fn into_raw_fd(self) -> (r: i32)
        ensures
            r == self@,
    {
        self.fd
    }

    /// Takes ownership of the descriptor `fd` of a shared memory object.
    pub fn from_fd(fd: i32) -> (r: SharedMemory)
        ensures
            r@ == fd,
    {
        SharedMemory { fd }
    }
}

impl ShmOpen {
    /// The name, NUL-terminated.
    pub closed spec fn name_spec(&self) -> Seq<u8> {
        self.name@
    }

    /// The open flags.
    pub closed spec fn oflag_spec(&self) -> i32 {
        self.oflag
    }

    /// The access mode of an object this call creates.
    pub closed spec fn mode_spec(&self) -> u32 {
        self.mode
    }

    /// The name, NUL-terminated.
    pub fn name(&self) -> (r: &[u8])
        ensures
            r@ == self.name_spec(),
    {
        self.name.as_slice()
    }

    /// The open flags.
    pub fn oflag(&self) -> (r: i32)
        ensures
            r == self.oflag_spec(),
    {
        self.oflag
    }

    /// The access mode of an object this call creates.
    pub fn mode(&self) -> (r: u32)
        ensures
            r == self.mode_spec(),
    {
        self.mode
    }

    /// Reads the answer to `shm_open`: a descriptor, or a negative value and
    /// the error the kernel reported.
    pub fn finish(self, ret: i32, errno: i32) -> (r: Result<SharedMemory, Error>)
        ensures
            r is Err <==> ret < 0,
            r matches Err(e) ==> e == Error::Os(errno),
            r matches Ok(s) ==> s@ == ret,
    {
        if ret >= 0 {
            Ok(SharedMemory::from_fd(ret))
        } else {
            Err(Error::Os(errno))
        }
    }
}

impl OpenOptions {
    /// Whether the object is opened for writing.
    pub closed spec fn writes(&self) -> bool {
        self.write
    }

    /// Whether a missing object is created.
    pub closed spec fn creates(&self) -> bool {
        self.create
    }

    /// Whether the object must not exist yet.
    pub closed spec fn creates_new(&self) -> bool {
        self.create_new
    }

    /// Whether an existing object is truncated.
    pub closed spec fn truncates(&self) -> bool {
        self.truncate
    }

    /// The access mode of an object that is created.
    pub closed spec fn mode_spec(&self) -> u32 {
        self.mode
    }

    /// Returns a new `OpenOptions` with default settings: read only, open
    /// only an existing object, no truncation, mode 0o666.
    pub fn new() -> (r: OpenOptions)
        ensures
            !r.writes(),
            !r.creates(),
            !r.creates_new(),
            !r.truncates(),
            r.mode_spec() == 0o666,
    {
        OpenOptions { write: false, create: false, create_new: false, truncate: false, mode: 0o666 }
    }

    /// Sets the option for write access.
    ///
    /// The shared memory region is writable if and only if this option is set.
    pub fn write(&mut self, write: bool) -> (r: &mut OpenOptions)
        ensures
            r.writes() == write,
            r.creates() == old(self).creates(),
            r.creates_new() == old(self).creates_new(),
            r.truncates() == old(self).truncates(),
            r.mode_spec() == old(self).mode_spec(),
            *final(self) == *final(r),
    {
        self.write = write;
        self
    }

    /// Sets the option for creating a new shared memory region.
    ///
    /// This option indicates whether a new region will be created if it does
    /// not already exist.
    pub fn create(&mut self, create: bool) -> (r: &mut OpenOptions)
        ensures
            r.creates() == create,
            r.writes() == old(self).writes(),
            r.creates_new() == old(self).creates_new(),
            r.truncates() == old(self).truncates(),
            r.mode_spec() == old(self).mode_spec(),
            *final(self) == *final(r),
    {
        self.create = create;
        self
    }

    /// Sets the option to always create a new shared memory region.
    ///
    /// This option indicates whether a new region will be created. If the
    /// region already exists, the operation will fail. This check happens
    /// atomically.
    ///
    /// If this option is set, the value of `create` is ignored.
    pub fn create_new(&mut self, create_new: bool) -> (r: &mut OpenOptions)
        ensures
            r.creates_new() == create_new,
            r.writes() == old(self).writes(),
            r.creates() == old(self).creates(),
            r.truncates() == old(self).truncates(),
            r.mode_spec() == old(self).mode_spec(),
            *final(self) == *final(r),
    {
        self.create_new = create_new;
        self
    }

    /// Sets the access mode use when creating a new shared memory region.
    ///
    /// If the region already exists, this is ignored.
    pub fn mode(&mut self, mode: u32) -> (r: &mut OpenOptions)
        ensures
            r.mode_spec() == mode,
            r.writes() == old(self).writes(),
            r.creates() == old(self).creates(),
            r.creates_new() == old(self).creates_new(),
            r.truncates() == old(self).truncates(),
            *final(self) == *final(r),
    {
        self.mode = mode;
        self
    }

    /// The open flags these options ask for.
    pub fn oflag(&self) -> (r: i32)
        ensures
            r == shm_oflag_spec(self.writes(), self.creates(), self.creates_new(), self.truncates()),
    {
        let access: i32 = if self.write { sys::o_rdwr() } else { sys::o_rdonly() };
        let create: i32 = if self.create { sys::o_creat() } else { 0 };
        let create_new: i32 = if self.create_new { sys::o_excl() | sys::o_creat() } else { 0 };
        let truncate: i32 = if self.truncate { sys::o_trunc() } else { 0 };
        access | create | create_new | truncate
    }

    /// Opens a shared memory region: the `shm_open` call for `name`.
    ///
    /// The name should begin with a `/` and contain no further `/`s; the
    /// kernel holds it to that. A name with a NUL byte cannot be handed over,
    /// and fails with `InvalidInput`.
    pub fn open(&self, name: &[u8]) -> (r: Result<ShmOpen, Error>)
        ensures
            r is Err <==> !valid_name(name@),
            r matches Err(e) ==> e == Error::InvalidInput,
            r matches Ok(c) ==> c.name_spec() == name@.push(0u8) && c.oflag_spec()
                == shm_oflag_spec(self.writes(), self.creates(), self.creates_new(), self.truncates())
                && c.mode_spec() == self.mode_spec(),
    {
        let name = match c_name(name) {
            Ok(n) => n,
            Err(e) => return Err(e),
        };
        let oflag = self.oflag();
        Ok(ShmOpen { name, oflag, mode: self.mode })
    }
}

/// Removes a shared memory region: the name, NUL-terminated, to hand to
/// `shm_unlink`.
///
/// A name with a NUL byte fails with `InvalidInput`.
pub fn unlink(name: &[u8]) -> (r: Result<Vec<u8>, Error>)
    ensures
        r is Err <==> !valid_name(name@),
        r matches Err(e) ==> e == Error::InvalidInput,
        r matches Ok(v) ==> v@ == name@.push(0u8),
{
    c_name(name)
}

} // verus!
