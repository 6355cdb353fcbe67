//! IPC semaphores.
//!
//! Every flavour of semaphore is driven by the same three calls: `sem_wait`,
//! `sem_trywait` and `sem_post`. A handle hands out a `SemCall` that names the
//! operation and the control block's address; `SemCall::finish` reads the
//! kernel's answer. A wait that would deadlock, and any failure that the
//! library's invariants rule out, come back as `Fatal`: no caller can recover
//! from them.

use vstd::prelude::*;
use crate::sys;

pub mod named;
pub mod unnamed;

verus! {

/// An error returned when `try_wait` would have blocked.
#[derive(Debug, Clone, Copy, PartialEq, Eq, Structural)]
pub struct TryWaitError;

impl TryWaitError {
    /// A description of the error.
    pub fn description(&self) -> (r: &'static str)
        ensures
            r@ == "wait call failed because the operation would block"@,
    {
        "wait call failed because the operation would block"
    }

    /// The description of the error, owned.
    pub fn to_string(&self) -> (r: String)
        ensures
            r@ == "wait call failed because the operation would block"@,
    {
        self.description().to_owned()
    }
}

/// A condition that no caller can recover from: the operation must stop.
#[derive(Debug, Clone, Copy, PartialEq, Eq, Structural)]
pub enum Fatal {
    /// The kernel reports that waiting would deadlock.
    Deadlock,
    /// The kernel rejected an operation that cannot fail on a sound control
    /// block; the `errno` it reported.
    Corrupt(i32),
}

impl Fatal {
    /// The message that stops the operation.
    pub fn message(&self) -> (r: &'static str)
        ensures
            *self == Fatal::Deadlock ==> r@ == "semaphore wait would result in deadlock"@,
            *self != Fatal::Deadlock ==> r@ == "semaphore control block is corrupt"@,
    {
        match *self {
            Fatal::Deadlock => "semaphore wait would result in deadlock",
            Fatal::Corrupt(_) => "semaphore control block is corrupt",
        }
    }
}

/// An operation on a semaphore's count.
#[derive(Debug, Clone, Copy, PartialEq, Eq, Structural)]
pub enum SemOp {
    /// `sem_wait`: decrement, blocking while the count is zero.
    Wait,
    /// `sem_trywait`: decrement, or report that it would block.
    TryWait,
    /// `sem_post`: increment.
    Post,
}

/// One call of `sem_wait`, `sem_trywait` or `sem_post` on the control block
/// at `addr`.
#[derive(Debug, Clone, Copy, PartialEq, Eq, Structural)]
pub struct SemCall {
    /// The operation.
    pub op: SemOp,
    /// The address of the control block.
    pub addr: usize,
}

/// The value of `errno` for an operation that would block.
pub open spec fn would_block_errno() -> i32 {
    11
}

/// The value of `errno` for an operation that would deadlock.
pub open spec fn deadlock_errno() -> i32 {
    35
}

/// What a failed wait means.
pub open spec fn wait_failure(errno: i32) -> Fatal {
    if errno == deadlock_errno() {
        Fatal::Deadlock
    } else {
        Fatal::Corrupt(errno)
    }
}

/// The outcome of an operation, given the kernel's return value and `errno`:
/// zero is success; a non-blocking wait that would block reports
/// `TryWaitError`; every other failure is fatal.
pub open spec fn outcome_spec(op: SemOp, ret: i32, errno: i32) -> Result<
    Result<(), TryWaitError>,
    Fatal,
> {
    if ret == 0 {
        Ok(Ok(()))
    } else {
        match op {
            SemOp::Wait => Err(wait_failure(errno)),
            SemOp::TryWait => if errno == would_block_errno() {
                Ok(Err(TryWaitError))
            } else {
                Err(wait_failure(errno))
            },
            SemOp::Post => Err(Fatal::Corrupt(errno)),
        }
    }
}

/// The count a control block holds after `op`, starting from `count`, when no
/// other thread or process touches it: a post adds one, a wait or a
/// non-blocking wait that goes through takes one away.
pub open spec fn count_after(op: SemOp, count: nat) -> nat {
    match op {
        SemOp::Post => count + 1,
        _ => if count > 0 {
            (count - 1) as nat
        } else {
            count
        },
    }
}

/// The kernel's answer, return value and `errno`, to a non-blocking wait or a
/// post on a control block holding `count`, as POSIX gives it for
/// `sem_trywait` and `sem_post`: only a non-blocking wait on a zero count
/// fails, with `EAGAIN`.
pub open spec fn answer(op: SemOp, count: nat) -> (i32, i32) {
    if op == SemOp::TryWait && count == 0 {
        (-1i32, would_block_errno())
    } else {
        (0i32, 0i32)
    }
}

/// What the library reports for `op` on a control block holding `count`.
pub open spec fn observed(op: SemOp, count: nat) -> Result<Result<(), TryWaitError>, Fatal> {
    outcome_spec(op, answer(op, count).0, answer(op, count).1)
}

/// The outcomes of `k` non-blocking waits in a row, from a count of `count`.
pub open spec fn try_waits(count: nat, k: nat) -> Seq<Result<Result<(), TryWaitError>, Fatal>>
    decreases k,
{
    if k == 0 {
        Seq::empty()
    } else {
        seq![observed(SemOp::TryWait, count)].add(
            try_waits(count_after(SemOp::TryWait, count), (k - 1) as nat),
        )
    }
}

/// A semaphore that starts with count `n`: `n` non-blocking waits in a row go
/// through, and the next one reports that it would block.
pub proof fn lemma_try_waits_drain(n: nat)
    ensures
        try_waits(n, n + 1).len() == n + 1,
        forall|i: int| 0 <= i < n ==> #[trigger] try_waits(n, n + 1)[i] == Ok::<
            Result<(), TryWaitError>,
            Fatal,
        >(Ok(())),
        try_waits(n, n + 1)[n as int] == Ok::<Result<(), TryWaitError>, Fatal>(Err(TryWaitError)),
    decreases n,
{
    if n > 0 {
        lemma_try_waits_drain((n - 1) as nat);
        let rest = try_waits((n - 1) as nat, n);
        assert(try_waits(n, n + 1) == seq![observed(SemOp::TryWait, n)].add(rest));
        assert forall|i: int| 0 <= i < n implies #[trigger] try_waits(n, n + 1)[i] == Ok::<
            Result<(), TryWaitError>,
            Fatal,
        >(Ok(())) by {
            if i > 0 {
                assert(try_waits(n, n + 1)[i] == rest[i - 1]);
            }
        }
    } else {
        assert(try_waits(0, 1) == seq![observed(SemOp::TryWait, 0)].add(try_waits(0, 0)));
    }
}

/// A post followed by a non-blocking wait on the same control block: both go
/// through, whatever the count, and the count is back where it started.
pub proof fn lemma_post_then_try_wait(count: nat)
    ensures
        observed(SemOp::Post, count) == Ok::<Result<(), TryWaitError>, Fatal>(Ok(())),
        observed(SemOp::TryWait, count_after(SemOp::Post, count)) == Ok::<
            Result<(), TryWaitError>,
            Fatal,
        >(Ok(())),
        count_after(SemOp::TryWait, count_after(SemOp::Post, count)) == count,
{
}

/// Reads the answer to `sem_wait`.
pub fn wait_result(ret: i32, errno: i32) -> (r: Result<(), Fatal>)
    ensures
        ret == 0 ==> r == Ok::<(), Fatal>(()),
        ret != 0 ==> r == Err::<(), Fatal>(wait_failure(errno)),
{
    if ret == 0 {
        Ok(())
    } else if errno == sys::edeadlk() {
        Err(Fatal::Deadlock)
    } else {
        Err(Fatal::Corrupt(errno))
    }
}

/// Reads the answer to `sem_trywait`.
pub fn try_wait_result(ret: i32, errno: i32) -> (r: Result<Result<(), TryWaitError>, Fatal>)
    ensures
        r == outcome_spec(SemOp::TryWait, ret, errno),
{
    if ret != 0 && errno == sys::eagain() {
        Ok(Err(TryWaitError))
    } else {
        match wait_result(ret, errno) {
            Ok(()) => Ok(Ok(())),
            Err(e) => Err(e),
        }
    }
}

/// Reads the answer to `sem_post`.
pub fn post_result(ret: i32, errno: i32) -> (r: Result<(), Fatal>)
    ensures
        ret == 0 ==> r == Ok::<(), Fatal>(()),
        ret != 0 ==> r == Err::<(), Fatal>(Fatal::Corrupt(errno)),
{
    if ret == 0 {
        Ok(())
    } else {
        Err(Fatal::Corrupt(errno))
    }
}

impl SemCall {
    /// Reads the kernel's answer to this call: its return value and `errno`.
    pub fn finish(self, ret: i32, errno: i32) -> (r: Result<Result<(), TryWaitError>, Fatal>)
        ensures
            r == outcome_spec(self.op, ret, errno),
    {
        match self.op {
            SemOp::Wait => match wait_result(ret, errno) {
                Ok(()) => Ok(Ok(())),
                Err(e) => Err(e),
            },
            SemOp::TryWait => try_wait_result(ret, errno),
            SemOp::Post => match post_result(ret, errno) {
                Ok(()) => Ok(Ok(())),
                Err(e) => Err(e),
            },
        }
    }
}

/// The address of a control block, and the three calls on it.
pub(crate) struct RawSemaphore {
    pub(crate) addr: usize,
}

impl RawSemaphore {
    pub(crate) fn call(&self, op: SemOp) -> (r: SemCall)
        ensures
            r == (SemCall { op, addr: self.addr }),
    {
        SemCall { op, addr: self.addr }
    }
}

} // verus!
