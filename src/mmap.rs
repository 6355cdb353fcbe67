//! Mapped memory.
//!
//! A `MapOptions` turns a request into the exact arguments of `mmap`, after
//! checking that they can be represented; `MapRequest::complete` turns the
//! kernel's answer into a `MemoryMap`, and `MemoryMap::unmap` gives back the
//! one range to release, once.

use vstd::prelude::*;
use crate::error::Error;
use crate::sys;

verus! {

/// The protection bits of a mapping with the given access rights: read 1,
/// write 2, execute 4, none 0.
pub open spec fn prot_spec(read: bool, write: bool, execute: bool) -> i32 {
    0i32 | (if read { 1i32 } else { 0i32 }) | (if write { 2i32 } else { 0i32 }) | (if execute {
        4i32
    } else {
        0i32
    })
}

/// The flags of a mapping: those of its backing (`MAP_FILE` 0, `MAP_ANON`
/// 0x20), then shared 1 or private 2, then fixed 0x10.
pub open spec fn flags_spec(base: i32, shared: bool, fixed: bool) -> i32 {
    base | (if shared { 1i32 } else { 2i32 }) | (if fixed { 0x10i32 } else { 0i32 })
}

/// The largest offset the platform's `off_t` can hold.
pub open spec fn max_offset() -> u64 {
    i64::MAX as u64
}

/// The arguments of one `mmap` call.
#[derive(Debug, Clone, Copy, PartialEq, Eq, Structural)]
pub struct MapRequest {
    /// The requested address: a hint, or binding when `MAP_FIXED` is set.
    pub addr: usize,
    /// The length of the mapping in bytes.
    pub len: usize,
    /// The protection bits.
    pub prot: i32,
    /// The mapping flags.
    pub flags: i32,
    /// The descriptor of the backing object.
    pub fd: i32,
    /// The offset into the backing object.
    pub offset: i64,
}

/// A mapped memory region: its base address and its length.
///
/// The value stands for the range the kernel handed out; `unmap` consumes it,
/// so each range is released once.
#[derive(Debug)]
pub struct MemoryMap {
    base: usize,
    len: usize,
}

/// The arguments of the `munmap` call that releases a region.
#[derive(Debug, Clone, Copy, PartialEq, Eq, Structural)]
pub struct Unmap {
    /// The base address of the region.
    pub addr: usize,
    /// Its length in bytes.
    pub len: usize,
}

/// Each access right shows in its own bit of the protection mask, and only
/// the rights asked for: read in bit 0, write in bit 1, execute in bit 2,
/// nothing above.
pub proof fn lemma_prot_bits(read: bool, write: bool, execute: bool)
    ensures
        (prot_spec(read, write, execute) & 1i32 != 0) == read,
        (prot_spec(read, write, execute) & 2i32 != 0) == write,
        (prot_spec(read, write, execute) & 4i32 != 0) == execute,
        prot_spec(read, write, execute) & !7i32 == 0,
{
    let r: i32 = if read { 1i32 } else { 0i32 };
    let w: i32 = if write { 2i32 } else { 0i32 };
    let x: i32 = if execute { 4i32 } else { 0i32 };
    assert(prot_spec(read, write, execute) == 0i32 | r | w | x);
    assert((r == 0 || r == 1) && (w == 0 || w == 2) && (x == 0 || x == 4) ==> {
        &&& ((0i32 | r | w | x) & 1i32 != 0) == (r == 1)
        &&& ((0i32 | r | w | x) & 2i32 != 0) == (w == 2)
        &&& ((0i32 | r | w | x) & 4i32 != 0) == (x == 4)
        &&& (0i32 | r | w | x) & !7i32 == 0
    }) by (bit_vector);
}

/// Mapping a positive length of any backing object from a representable
/// offset, with any access configuration, is never refused before the call:
/// the request asks for exactly that length, object and offset, and once the
/// kernel has answered with a region, releasing it gives back exactly that
/// range.
pub proof fn lemma_map_then_unmap(o: MapOptions, len: usize, fd: i32, offset: u64, ret: usize)
    requires
        len > 0,
        offset <= max_offset(),
        ret != usize::MAX,
    ensures
        o.request_spec(len, 0, fd, offset) matches Ok(req) && req.len == len && req.fd == fd
            && req.offset as int == offset as int && req.addr == o.requested_addr(),
        o.request_spec(len, 0x20, 0, 0) is Ok,
        MapRequest::complete_spec(o.request_spec(len, 0, fd, offset)->Ok_0, ret) == (Unmap {
            addr: ret,
            len,
        }),
{
}

impl MemoryMap {
    /// The base address of the region.
    pub closed spec fn base_spec(&self) -> usize {
        self.base
    }

    /// The length of the region.
    pub closed spec fn len_spec(&self) -> usize {
        self.len
    }

    /// Returns the base address of this memory region.
    pub fn as_ptr(&self) -> (r: usize)
        ensures
            r == self.base_spec(),
    {
        self.base
    }

    /// Returns the base address of this memory region, for writing.
    pub fn as_mut_ptr(&mut self) -> (r: usize)
        ensures
            r == old(self).base_spec(),
            *final(self) == *old(self),
    {
        self.base
    }

    /// Returns the length of this memory region.
    pub fn len(&self) -> (r: usize)
        ensures
            r == self.len_spec(),
    {
        self.len
    }

    /// Releases the region: the `munmap` call that gives back exactly the range
    /// that was mapped.
    pub fn unmap(self) -> (r: Unmap)
        ensures
            r == (Unmap { addr: self.base_spec(), len: self.len_spec() }),
    {
        Unmap { addr: self.base, len: self.len }
    }
}

impl MapRequest {
    /// The range of the region the kernel's address `ret` gives, when it is
    /// not `MAP_FAILED`.
    pub open spec fn complete_spec(self, ret: usize) -> Unmap {
        Unmap { addr: ret, len: self.len }
    }

    /// Interprets the return value of `mmap` for this request, and `errno`.
    ///
    /// `MAP_FAILED` gives the error the kernel reported; any other address is
    /// the base of a region of the requested length.
    pub fn complete(self, ret: usize, errno: i32) -> (r: Result<MemoryMap, Error>)
        ensures
            r is Err <==> ret == usize::MAX,
            r matches Err(e) ==> e == Error::Os(errno),
            r matches Ok(m) ==> (Unmap { addr: m.base_spec(), len: m.len_spec() })
                == self.complete_spec(ret),
    {
        if ret == sys::map_failed() {
            Err(Error::Os(errno))
        } else {
            Ok(MemoryMap { base: ret, len: self.len })
        }
    }
}

/// A builder type for `MemoryMap`s.
#[derive(Debug, Clone, Copy)]
pub struct MapOptions {
    shared: bool,
    fixed: bool,
    addr: usize,
    read: bool,
    write: bool,
    execute: bool,
}

impl MapOptions {
    /// Whether changes are shared with the backing object.
    pub closed spec fn is_shared(&self) -> bool {
        self.shared
    }

    /// Whether the requested address is binding.
    pub closed spec fn is_fixed(&self) -> bool {
        self.fixed
    }

    /// The requested address.
    pub closed spec fn requested_addr(&self) -> usize {
        self.addr
    }

    /// Whether the region is readable.
    pub closed spec fn can_read(&self) -> bool {
        self.read
    }

    /// Whether the region is writable.
    pub closed spec fn can_write(&self) -> bool {
        self.write
    }

    /// Whether the region is executable.
    pub closed spec fn can_exec(&self) -> bool {
        self.execute
    }

    /// The options with everything unset: private, not fixed, no address, no
    /// access.
    pub open spec fn is_default(&self) -> bool {
        &&& !self.is_shared()
        &&& !self.is_fixed()
        &&& self.requested_addr() == 0
        &&& !self.can_read()
        &&& !self.can_write()
        &&& !self.can_exec()
    }

    /// Creates a new `MapOptions` with default settings.
    pub fn new() -> (r: MapOptions)
        ensures
            r.is_default(),
    {
        MapOptions { shared: false, fixed: false, addr: 0, read: false, write: false, execute: false }
    }

    /// Sets the option to share changes to the memory region.
    ///
    /// If set, changes made to the mapped memory region will be reflected in
    /// the underlying object.
    pub fn shared(&mut self, shared: bool) -> (r: &mut MapOptions)
        ensures
            r.is_shared() == shared,
            r.is_fixed() == old(self).is_fixed(),
            r.requested_addr() == old(self).requested_addr(),
            r.can_read() == old(self).can_read(),
            r.can_write() == old(self).can_write(),
            r.can_exec() == old(self).can_exec(),
            *final(self) == *final(r),
    {
        self.shared = shared;
        self
    }

    /// Sets the option to force the memory region to be mapped in a specific
    /// location.
    ///
    /// If set, the system must respect the value set by the `addr` method.
    pub fn fixed(&mut self, fixed: bool) -> (r: &mut MapOptions)
        ensures
            r.is_fixed() == fixed,
            r.is_shared() == old(self).is_shared(),
            r.requested_addr() == old(self).requested_addr(),
            r.can_read() == old(self).can_read(),
            r.can_write() == old(self).can_write(),
            r.can_exec() == old(self).can_exec(),
            *final(self) == *final(r),
    {
        self.fixed = fixed;
        self
    }

    /// Sets the requested base address for the mapped region.
    ///
    /// Unless `fixed` is set, this address is treated as a hint.
    pub fn addr(&mut self, addr: usize) -> (r: &mut MapOptions)
        ensures
            r.requested_addr() == addr,
            r.is_shared() == old(self).is_shared(),
            r.is_fixed() == old(self).is_fixed(),
            r.can_read() == old(self).can_read(),
            r.can_write() == old(self).can_write(),
            r.can_exec() == old(self).can_exec(),
            *final(self) == *final(r),
    {
        self.addr = addr;
        self
    }

    /// Sets the option for read access.
    ///
    /// If set, the mapped region will be readable.
    pub fn read(&mut self, read: bool) -> (r: &mut MapOptions)
        ensures
            r.can_read() == read,
            r.is_shared() == old(self).is_shared(),
            r.is_fixed() == old(self).is_fixed(),
            r.requested_addr() == old(self).requested_addr(),
            r.can_write() == old(self).can_write(),
            r.can_exec() == old(self).can_exec(),
            *final(self) == *final(r),
    {
        self.read = read;
        self
    }

    /// Sets the option for write access.
    ///
    /// The mapped region is writable if and only if this option is set.
    pub fn write(&mut self, write: bool) -> (r: &mut MapOptions)
        ensures
            r.can_write() == write,
            r.is_shared() == old(self).is_shared(),
            r.is_fixed() == old(self).is_fixed(),
            r.requested_addr() == old(self).requested_addr(),
            r.can_read() == old(self).can_read(),
            r.can_exec() == old(self).can_exec(),
            *final(self) == *final(r),
    {
        self.write = write;
        self
    }

    /// Sets the option for execute access.
    ///
    /// If set, the mapped region will be executable.
    pub fn execute(&mut self, execute: bool) -> (r: &mut MapOptions)
        ensures
            r.can_exec() == execute,
            r.is_shared() == old(self).is_shared(),
            r.is_fixed() == old(self).is_fixed(),
            r.requested_addr() == old(self).requested_addr(),
            r.can_read() == old(self).can_read(),
            r.can_write() == old(self).can_write(),
            *final(self) == *final(r),
    {
        self.execute = execute;
        self
    }

    /// The protection bits these options ask for.
    pub fn prot(&self) -> (r: i32)
        ensures
            r == prot_spec(self.can_read(), self.can_write(), self.can_exec()),
    {
        let read: i32 = if self.read { sys::prot_read() } else { 0 };
        let write: i32 = if self.write { sys::prot_write() } else { 0 };
        let execute: i32 = if self.execute { sys::prot_exec() } else { 0 };
        sys::prot_none() | read | write | execute
    }

    /// The flags these options add to `base`, the flags of the backing.
    pub fn flags(&self, base: i32) -> (r: i32)
        ensures
            r == flags_spec(base, self.is_shared(), self.is_fixed()),
    {
        let sharing: i32 = if self.shared { sys::map_shared() } else { sys::map_private() };
        let fixed: i32 = if self.fixed { sys::map_fixed() } else { 0 };
        base | sharing | fixed
    }

    /// The `mmap` call of a mapping of `len` bytes with these options.
    pub open spec fn request_spec(&self, len: usize, base: i32, fd: i32, offset: u64) -> Result<
        MapRequest,
        Error,
    > {
        if offset > max_offset() {
            Err(Error::InvalidInput)
        } else {
            Ok(
                MapRequest {
                    addr: self.requested_addr(),
                    len,
                    prot: prot_spec(self.can_read(), self.can_write(), self.can_exec()),
                    flags: flags_spec(base, self.is_shared(), self.is_fixed()),
                    fd,
                    offset: offset as i64,
                },
            )
        }
    }

    /// The `mmap` call with these options, once the offset is known to fit.
    fn map_inner(&self, len: usize, base: i32, fd: i32, offset: i64) -> (r: MapRequest)
        ensures
            r == (MapRequest {
                addr: self.requested_addr(),
                len,
                prot: prot_spec(self.can_read(), self.can_write(), self.can_exec()),
                flags: flags_spec(base, self.is_shared(), self.is_fixed()),
                fd,
                offset,
            }),
    {
        MapRequest { addr: self.addr, len, prot: self.prot(), flags: self.flags(base), fd, offset }
    }

    /// The call that maps `len` bytes of the object behind descriptor `fd`,
    /// from `offset` on.
    ///
    /// The descriptor may be that of a file, a shared memory object, or a
    /// typed memory object. An offset beyond what `off_t` holds is refused
    /// with `InvalidInput`, before any call is made.
    pub fn map(&self, len: usize, fd: i32, offset: u64) -> (r: Result<MapRequest, Error>)
        ensures
            r == self.request_spec(len, 0, fd, offset),
    {
        if offset > sys::off_max() {
            return Err(Error::InvalidInput);
        }
        Ok(self.map_inner(len, sys::map_file(), fd, offset as i64))
    }

    /// The call that maps `len` bytes of anonymous memory.
    pub fn map_anonymous(&self, len: usize) -> (r: MapRequest)
        ensures
            Ok::<MapRequest, Error>(r) == self.request_spec(len, 0x20, 0, 0),
    {
        self.map_inner(len, sys::map_anon(), 0, 0)
    }
}

} // verus!
