//! The platform's constants, as libc gives them.
//!
//! Each function returns one constant of libc; its contract states the value
//! that libc defines for Linux on x86_64.

use vstd::prelude::*;

verus! {

/// Relies on libc::PROT_NONE: no access.
#[verifier::external_body]
pub(crate) fn prot_none() -> (r: i32)
    ensures
        r == 0,
{
    libc::PROT_NONE
}

/// Relies on libc::PROT_READ: the read permission bit.
#[verifier::external_body]
pub(crate) fn prot_read() -> (r: i32)
    ensures
        r == 1,
{
    libc::PROT_READ
}

/// Relies on libc::PROT_WRITE: the write permission bit.
#[verifier::external_body]
pub(crate) fn prot_write() -> (r: i32)
    ensures
        r == 2,
{
    libc::PROT_WRITE
}

/// Relies on libc::PROT_EXEC: the execute permission bit.
#[verifier::external_body]
pub(crate) fn prot_exec() -> (r: i32)
    ensures
        r == 4,
{
    libc::PROT_EXEC
}

/// Relies on libc::MAP_FILE: the (empty) flag of a file-backed mapping.
#[verifier::external_body]
pub(crate) fn map_file() -> (r: i32)
    ensures
        r == 0,
{
    libc::MAP_FILE
}

/// Relies on libc::MAP_SHARED: the flag of a mapping whose changes are shared.
#[verifier::external_body]
pub(crate) fn map_shared() -> (r: i32)
    ensures
        r == 1,
{
    libc::MAP_SHARED
}

/// Relies on libc::MAP_PRIVATE: the flag of a copy-on-write mapping.
#[verifier::external_body]
pub(crate) fn map_private() -> (r: i32)
    ensures
        r == 2,
{
    libc::MAP_PRIVATE
}

/// Relies on libc::MAP_FIXED: the flag that makes the address binding.
#[verifier::external_body]
pub(crate) fn map_fixed() -> (r: i32)
    ensures
        r == 0x10,
{
    libc::MAP_FIXED
}

/// Relies on libc::MAP_ANON: the flag of a mapping without a backing object.
#[verifier::external_body]
pub(crate) fn map_anon() -> (r: i32)
    ensures
        r == 0x20,
{
    libc::MAP_ANON
}

/// Relies on libc::MAP_FAILED: the address mmap returns on failure, all ones.
#[verifier::external_body]
pub(crate) fn map_failed() -> (r: usize)
    ensures
        r == usize::MAX,
{
    libc::MAP_FAILED as usize
}

/// Relies on libc::SEM_FAILED: the handle sem_open returns on failure, null.
#[verifier::external_body]
pub(crate) fn sem_failed() -> (r: usize)
    ensures
        r == 0,
{
    libc::SEM_FAILED as usize
}

/// Relies on libc::off_t: the largest file offset, that of a 64-bit `off_t`.
#[verifier::external_body]
pub(crate) fn off_max() -> (r: u64)
    ensures
        r == i64::MAX as u64,
{
    libc::off_t::MAX as u64
}

/// Relies on libc::O_RDONLY: the access mode for reading only.
#[verifier::external_body]
pub(crate) fn o_rdonly() -> (r: i32)
    ensures
        r == 0,
{
    libc::O_RDONLY
}

/// Relies on libc::O_RDWR: the access mode for reading and writing.
#[verifier::external_body]
pub(crate) fn o_rdwr() -> (r: i32)
    ensures
        r == 2,
{
    libc::O_RDWR
}

/// Relies on libc::O_CREAT: the flag to create a missing object.
#[verifier::external_body]
pub(crate) fn o_creat() -> (r: i32)
    ensures
        r == 64,
{
    libc::O_CREAT
}

/// Relies on libc::O_EXCL: the flag to fail on an existing object.
#[verifier::external_body]
pub(crate) fn o_excl() -> (r: i32)
    ensures
        r == 128,
{
    libc::O_EXCL
}

/// Relies on libc::O_TRUNC: the flag to truncate an existing object.
#[verifier::external_body]
pub(crate) fn o_trunc() -> (r: i32)
    ensures
        r == 512,
{
    libc::O_TRUNC
}

/// Relies on libc::EAGAIN: the error of an operation that would block.
#[verifier::external_body]
pub(crate) fn eagain() -> (r: i32)
    ensures
        r == 11,
{
    libc::EAGAIN
}

/// Relies on libc::EDEADLK: the error of an operation that would deadlock.
#[verifier::external_body]
pub(crate) fn edeadlk() -> (r: i32)
    ensures
        r == 35,
{
    libc::EDEADLK
}

} // verus!
