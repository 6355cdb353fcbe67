use posix_ipc::error::{check_status, Error};
use posix_ipc::mmap::{MapOptions, Unmap};
use posix_ipc::name::c_name;
use posix_ipc::sem::named;
use posix_ipc::sem::unnamed::{SemDestroy, Semaphore, SemaphoreRef};
use posix_ipc::sem::{post_result, try_wait_result, wait_result, Fatal, SemCall, SemOp, TryWaitError};
use posix_ipc::shm;

#[test]
fn default_options_map_private_with_no_access() {
    let req = MapOptions::new().map(4096, 3, 0).unwrap();
    assert_eq!(req.addr, 0);
    assert_eq!(req.len, 4096);
    assert_eq!(req.prot, 0);
    assert_eq!(req.flags, 2);
    assert_eq!(req.fd, 3);
    assert_eq!(req.offset, 0);
}

#[test]
fn read_write_shared_options() {
    let mut options = MapOptions::new();
    options.read(true).write(true).shared(true);
    assert_eq!(options.prot(), 3);
    let req = options.map(4096, 7, 8192).unwrap();
    assert_eq!(req.prot, 3);
    assert_eq!(req.flags, 1);
    assert_eq!(req.offset, 8192);
}

#[test]
fn execute_and_fixed_options() {
    let mut options = MapOptions::new();
    options.execute(true).fixed(true).addr(0x10000);
    let req = options.map_anonymous(100);
    assert_eq!(req.prot, 4);
    assert_eq!(req.flags, 0x20 | 2 | 0x10);
    assert_eq!(req.addr, 0x10000);
    assert_eq!(req.fd, 0);
    assert_eq!(req.len, 100);
}

#[test]
fn clearing_an_option_drops_its_bit() {
    let mut options = MapOptions::new();
    options.read(true).write(true).execute(true).shared(true);
    assert_eq!(options.prot(), 7);
    options.write(false).shared(false);
    assert_eq!(options.prot(), 5);
    assert_eq!(options.flags(0), 2);
}

#[test]
fn offset_too_large_is_invalid_input() {
    let mut options = MapOptions::new();
    options.read(true).write(true).shared(true);
    assert_eq!(options.map(4096, 3, (i64::MAX as u64) + 1).unwrap_err(), Error::InvalidInput);
    assert_eq!(options.map(4096, 3, u64::MAX).unwrap_err(), Error::InvalidInput);
    assert_eq!(options.map(4096, 3, i64::MAX as u64).unwrap().offset, i64::MAX);
}

#[test]
fn map_failed_reports_errno() {
    let req = MapOptions::new().map(0, 3, 0).unwrap();
    assert_eq!(req.complete(usize::MAX, 22).unwrap_err(), Error::Os(22));
}

#[test]
fn completed_map_releases_its_range() {
    let req = MapOptions::new().map_anonymous(8192);
    let mut region = req.complete(0x7000_0000, 0).unwrap();
    assert_eq!(region.as_ptr(), 0x7000_0000);
    assert_eq!(region.as_mut_ptr(), 0x7000_0000);
    assert_eq!(region.len(), 8192);
    assert_eq!(region.unmap(), Unmap { addr: 0x7000_0000, len: 8192 });
}

#[test]
fn names_are_nul_terminated() {
    assert_eq!(c_name(b"/a").unwrap(), vec![b'/', b'a', 0]);
    assert_eq!(c_name(b"").unwrap(), vec![0]);
    assert_eq!(c_name(b"/a\0b").unwrap_err(), Error::InvalidInput);
    assert_eq!(shm::unlink(b"\0").unwrap_err(), Error::InvalidInput);
    assert_eq!(named::unlink(b"/s").unwrap(), vec![b'/', b's', 0]);
}

#[test]
fn status_and_errno() {
    assert_eq!(check_status(0, 5), Ok(()));
    assert_eq!(check_status(-1, 5), Err(Error::Os(5)));
    assert_eq!(Error::Os(13).raw_os_error(), Some(13));
    assert_eq!(Error::InvalidInput.raw_os_error(), None);
}

#[test]
fn shm_flags() {
    assert_eq!(shm::OpenOptions::new().oflag(), 0);
    let mut options = shm::OpenOptions::new();
    options.write(true).create(true);
    assert_eq!(options.oflag(), 2 | 64);
    options.create_new(true).mode(0o600);
    assert_eq!(options.oflag(), 2 | 64 | 128);
    let call = options.open(b"/region").unwrap();
    assert_eq!(call.name(), b"/region\0");
    assert_eq!(call.oflag(), 2 | 64 | 128);
    assert_eq!(call.mode(), 0o600);
    assert!(options.open(b"/re\0gion").is_err());
}

#[test]
fn shm_open_answers() {
    let call = shm::OpenOptions::new().open(b"/x").unwrap();
    assert_eq!(call.finish(-1, 2).err(), Some(Error::Os(2)));
    let call = shm::OpenOptions::new().open(b"/x").unwrap();
    let object = call.finish(5, 0).unwrap();
    assert_eq!(object.as_raw_fd(), 5);
    assert_eq!(object.into_raw_fd(), 5);
    assert_eq!(shm::SharedMemory::from_fd(9).as_raw_fd(), 9);
}

#[test]
fn named_flags() {
    let call = named::Semaphore::open(b"/s").unwrap();
    assert_eq!(call.oflag(), 0);
    assert_eq!(call.mode(), 0o666);
    assert_eq!(call.value(), 0);
    assert_eq!(named::Semaphore::create(b"/s").unwrap().oflag(), 64);
    let mut options = named::OpenOptions::new();
    options.create_new(true).value(3).mode(0o644);
    let call = options.open(b"/s").unwrap();
    assert_eq!(call.oflag(), 64 | 128);
    assert_eq!(call.value(), 3);
    assert_eq!(call.mode(), 0o644);
    assert_eq!(call.name(), b"/s\0");
}

#[test]
fn create_new_on_existing_name_reports_eexist() {
    let mut options = named::OpenOptions::new();
    options.create_new(true);
    let call = options.open(b"/taken").unwrap();
    assert_eq!(call.oflag() & 128, 128);
    assert_eq!(call.finish(0, 17).err(), Some(Error::Os(17)));
}

#[test]
fn named_handle_calls() {
    let call = named::Semaphore::open(b"/s").unwrap();
    let sem = call.finish(0x5000, 0).unwrap();
    assert_eq!(sem.wait(), SemCall { op: SemOp::Wait, addr: 0x5000 });
    assert_eq!(sem.post(), SemCall { op: SemOp::Post, addr: 0x5000 });
    assert_eq!(sem.close(), 0x5000);
}

#[test]
fn wait_outcomes() {
    assert_eq!(wait_result(0, 0), Ok(()));
    assert_eq!(wait_result(-1, 35), Err(Fatal::Deadlock));
    assert_eq!(wait_result(-1, 4), Err(Fatal::Corrupt(4)));
    assert_eq!(post_result(0, 0), Ok(()));
    assert_eq!(post_result(-1, 22), Err(Fatal::Corrupt(22)));
}

#[test]
fn try_wait_outcomes() {
    assert_eq!(try_wait_result(0, 0), Ok(Ok(())));
    assert_eq!(try_wait_result(-1, 11), Ok(Err(TryWaitError)));
    assert_eq!(try_wait_result(-1, 35), Err(Fatal::Deadlock));
    assert_eq!(try_wait_result(-1, 22), Err(Fatal::Corrupt(22)));
    let would_block = SemCall { op: SemOp::Wait, addr: 1 }.finish(-1, 11);
    assert_eq!(would_block, Err(Fatal::Corrupt(11)));
    assert_eq!(SemCall { op: SemOp::Post, addr: 1 }.finish(-1, 11), Err(Fatal::Corrupt(11)));
    assert_eq!(SemCall { op: SemOp::TryWait, addr: 1 }.finish(-1, 11), Ok(Err(TryWaitError)));
}

#[test]
fn error_messages() {
    assert_eq!(TryWaitError.description(), "wait call failed because the operation would block");
    assert_eq!(TryWaitError.to_string(), "wait call failed because the operation would block");
    assert_eq!(Fatal::Deadlock.message(), "semaphore wait would result in deadlock");
    assert_eq!(Fatal::Corrupt(1).message(), "semaphore control block is corrupt");
}

#[test]
fn unnamed_lifecycle_calls() {
    let init = Semaphore::new(0x9000, 1);
    assert_eq!(init.addr(), 0x9000);
    assert_eq!(init.pshared(), 1);
    assert_eq!(init.value(), 1);
    let owner = init.finish(0, 0).unwrap();
    assert_eq!(owner.wait(), SemCall { op: SemOp::Wait, addr: 0x9000 });
    assert_eq!(owner.try_wait(), SemCall { op: SemOp::TryWait, addr: 0x9000 });
    assert_eq!(owner.post(), SemCall { op: SemOp::Post, addr: 0x9000 });
    let reference = SemaphoreRef::new(0x9000);
    assert_eq!(reference.wait(), owner.wait());
    assert_eq!(reference.post(), owner.post());
    assert_eq!(owner.destroy(), SemDestroy { addr: 0x9000 });
}

#[test]
fn unnamed_init_rejected() {
    let init = Semaphore::new(0x9000, 0);
    assert_eq!(init.finish(-1, 38).err().map(|e| e.raw_os_error()), Some(Some(38)));
}
