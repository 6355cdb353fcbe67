//! The library's side of whole sessions: each step builds the request the
//! library hands to the kernel, and reads back the answer the kernel gives in
//! that session.

use posix_ipc::error::Error;
use posix_ipc::mmap::{MapOptions, Unmap};
use posix_ipc::sem::named;
use posix_ipc::sem::unnamed::{SemDestroy, Semaphore, SemaphoreRef};
use posix_ipc::sem::{SemCall, SemOp, TryWaitError};
use posix_ipc::shm;

#[test]
fn unnamed_sem() {
    let name: &[u8] = b"/posix-ipc-unnamed-sem";
    let mut options = shm::OpenOptions::new();
    options.create_new(true).write(true);
    let call = options.open(name).unwrap();
    assert_eq!(call.oflag(), 2 | 64 | 128);
    let object = call.finish(3, 0).unwrap();
    assert_eq!(shm::unlink(name).unwrap(), b"/posix-ipc-unnamed-sem\0".to_vec());

    let mut map_options = MapOptions::new();
    map_options.read(true).write(true).shared(true);
    let req = map_options.map(4096, object.as_raw_fd(), 0).unwrap();
    assert_eq!((req.len, req.prot, req.flags, req.fd, req.offset), (4096, 3, 1, 3, 0));
    let mut region = req.complete(0x7f00_0000_0000, 0).unwrap();

    let sem_ptr = region.as_mut_ptr();
    let init = Semaphore::new(sem_ptr, 1);
    assert_eq!((init.addr(), init.pshared(), init.value()), (sem_ptr, 1, 1));
    let _sem = init.finish(0, 0).unwrap();

    let sem_ref = SemaphoreRef::new(sem_ptr);
    let wait = sem_ref.wait();
    assert_eq!(wait, SemCall { op: SemOp::Wait, addr: 0x7f00_0000_0000 });
    assert_eq!(wait.finish(0, 0), Ok(Ok(())));
}

#[test]
fn sem_single_thread() {
    let name: &[u8] = b"/ipc-test-sem-single-thread";
    let mut options = named::OpenOptions::new();
    options.create_new(true);
    let call = options.open(name).unwrap();
    assert_eq!(call.oflag(), 64 | 128);
    let sem = call.finish(0x1000, 0).unwrap();
    assert_eq!(named::unlink(name).unwrap(), b"/ipc-test-sem-single-thread\0".to_vec());
    assert_eq!(sem.post().finish(0, 0), Ok(Ok(())));
    assert_eq!(sem.wait().finish(0, 0), Ok(Ok(())));
}

#[test]
fn named_single_thread() {
    let name: &[u8] = b"/posix-ipc-sem-single-thread";
    let mut options = named::OpenOptions::new();
    options.create_new(true);
    let sem = options.open(name).unwrap().finish(0x2000, 0).unwrap();
    assert!(named::unlink(name).is_ok());
    let post = sem.post();
    let wait = sem.wait();
    assert_eq!(post, SemCall { op: SemOp::Post, addr: 0x2000 });
    assert_eq!(wait, SemCall { op: SemOp::Wait, addr: 0x2000 });
    assert_eq!(post.finish(0, 0), Ok(Ok(())));
    assert_eq!(wait.finish(0, 0), Ok(Ok(())));
}

#[test]
fn open_missing() {
    let name: &[u8] = b"/posix-ipc-sem-open-missing";
    let call = named::Semaphore::open(name).unwrap();
    assert_eq!(call.oflag(), 0);
    // ENOENT: no semaphore of that name, and none may be created.
    assert!(call.finish(0, 2).is_err());
}

#[test]
fn create_open() {
    let name: &[u8] = b"/posix-ipc-sem-create-open";
    let create = named::Semaphore::create(name).unwrap();
    assert_eq!(create.oflag(), 64);
    create.finish(0x3000, 0).unwrap();
    let open = named::Semaphore::open(name).unwrap();
    assert_eq!(open.oflag(), 0);
    open.finish(0x3000, 0).unwrap();
    named::unlink(name).unwrap();
}

#[test]
fn metadata() {
    let name: &[u8] = b"/posix-pic-shm-metadata";
    let mut options = shm::OpenOptions::new();
    options.create(true).write(true);
    let call = options.open(name).unwrap();
    assert_eq!(call.name(), b"/posix-pic-shm-metadata\0");
    assert_eq!(call.oflag(), 2 | 64);
    assert_eq!(call.mode(), 0o666);
    let object = call.finish(4, 0).unwrap();
    assert_eq!(object.as_raw_fd(), 4);
    shm::unlink(name).unwrap();
    let req = MapOptions::new().map(4096, object.as_raw_fd(), 0).unwrap();
    assert_eq!(req.len, 4096);
}

#[test]
fn owner_wait_reference_post_owner_try_wait() {
    let mut options = shm::OpenOptions::new();
    options.create(true).write(true);
    let object = options.open(b"/posix-ipc-round-trip").unwrap().finish(5, 0).unwrap();
    let mut map_options = MapOptions::new();
    map_options.read(true).write(true).shared(true);
    let region = map_options.map(4096, object.as_raw_fd(), 0).unwrap().complete(0x6000, 0).unwrap();
    let base = region.as_ptr();
    let owner = Semaphore::new(base, 1).finish(0, 0).unwrap();
    assert_eq!(owner.wait().finish(0, 0), Ok(Ok(())));
    let reference = SemaphoreRef::new(base);
    let post = reference.post();
    assert_eq!(post.addr, owner.try_wait().addr);
    assert_eq!(post.finish(0, 0), Ok(Ok(())));
    assert_eq!(owner.try_wait().finish(0, 0), Ok(Ok(())));
    assert_eq!(owner.destroy(), SemDestroy { addr: 0x6000 });
    assert_eq!(region.unmap(), Unmap { addr: 0x6000, len: 4096 });
}

#[test]
fn drained_count_would_block() {
    let owner = Semaphore::new(0x8000, 2).finish(0, 0).unwrap();
    assert_eq!(owner.try_wait().finish(0, 0), Ok(Ok(())));
    assert_eq!(owner.try_wait().finish(0, 0), Ok(Ok(())));
    assert_eq!(owner.try_wait().finish(-1, 11), Ok(Err(TryWaitError)));
    assert_eq!(owner.post().finish(0, 0), Ok(Ok(())));
    assert_eq!(owner.try_wait().finish(0, 0), Ok(Ok(())));
}

#[test]
fn anonymous_map_then_unmap() {
    for len in [1usize, 4096, 65536] {
        let mut o = MapOptions::new();
        o.read(true).write(true);
        let req = o.map_anonymous(len);
        assert_eq!((req.len, req.flags, req.offset), (len, 0x20 | 2, 0));
        let region = req.complete(0x4000_0000, 0).unwrap();
        assert_eq!(region.unmap(), Unmap { addr: 0x4000_0000, len });
    }
}

#[test]
fn unlink_keeps_descriptor() {
    let mut options = shm::OpenOptions::new();
    options.create(true).write(true);
    let object = options.open(b"/posix-ipc-unlinked").unwrap().finish(6, 0).unwrap();
    shm::unlink(b"/posix-ipc-unlinked").unwrap();
    let req = MapOptions::new().map(8192, object.as_raw_fd(), 0).unwrap();
    assert_eq!(req.fd, 6);
    assert_eq!(req.complete(usize::MAX, 13).err(), Some(Error::Os(13)));
}
