//! Interfaces to the POSIX IPC APIs: memory mappings, shared memory objects
//! and semaphores.
//!
//! The library decides everything that surrounds a system call: which flags
//! and protection bits a request carries, whether its arguments can be
//! represented, how a name is handed to the kernel, and what the kernel's
//! answer means. The calls themselves are made by the caller, which hands the
//! raw return value and `errno` back.

pub mod error;
pub mod mmap;
pub mod name;
pub mod sem;
pub mod shm;
mod sys;
