//! The threading capability.  Spawning is not supported and the handle type
//! cannot be constructed; yielding and naming are harmless no-ops.  The
//! remaining-time bookkeeping of the functional backends' interruptible sleep
//! loop lives here as plain verified arithmetic; the native sleep call itself
//! is outside work that the program shell performs.

use vstd::prelude::*;
use crate::error::{unsupported, IoError};
use crate::handle::NoHandle;

verus! {

/// The default stack request for a spawned thread.
pub const DEFAULT_MIN_STACK_SIZE: usize = 2 * 1024 * 1024;

/// A native thread handle.  On this platform none can exist.
#[derive(Debug)]
pub struct Thread {
    #[allow(dead_code)]
    token: NoHandle,
}

impl Thread {
    /// Spawning is not supported for any stack size or entry point.
    pub fn new<F: FnOnce()>(_stack: usize, _p: F) -> (r: Result<Thread, IoError>)
        ensures
            r is Err && r->Err_0.is_unsupported(),
    {
        unsupported()
    }

    /// Yielding is a no-op: there is no other thread to yield to.
    pub fn yield_now() {
    }

    /// Naming the current thread has no effect here.
    pub fn set_name(_name: &[u8]) {
    }

    /// Joining consumes the handle; since none can exist, there is nothing to
    /// wait for.
    pub fn join(self) {
    }
}

/// Parallelism cannot be queried on this platform.
pub fn available_parallelism() -> (r: Result<usize, IoError>)
    ensures
        r is Err && r->Err_0.is_unsupported(),
{
    unsupported()
}

/// The bounds of the current thread's stack guard region.  This platform
/// installs no guard pages, so there is never one to report.
pub fn stack_guard_current() -> (r: Option<(usize, usize)>)
    ensures
        r is None,
{
    None
}

/// Installs a stack guard region for the current thread; a no-op here, with
/// nothing installed to report.
pub fn stack_guard_init() -> (r: Option<(usize, usize)>)
    ensures
        r is None,
{
    None
}

/// What one native sleep call reported back.
pub enum SleepOutcome {
    /// The call slept the whole requested time.
    Completed,
    /// A signal cut the call short; the fields are the remaining seconds and
    /// nanoseconds it reported.
    Interrupted(i64, i64),
}

/// The request for the next native sleep call of an interruptible sleep loop:
/// as many of the remaining `secs` as the native seconds field can carry, plus
/// the whole sub-second part.
pub fn sleep_request(secs: u64, nsecs: u32) -> (req: (i64, i64))
    ensures
        req.0 == if secs > i64::MAX {
            i64::MAX as int
        } else {
            secs as int
        },
        req.1 == nsecs as int,
{
    let sec: i64 = if secs > i64::MAX as u64 {
        i64::MAX
    } else {
        secs as i64
    };
    (sec, nsecs as i64)
}

/// The time still owed after one native sleep call: the seconds the request
/// left out, plus whatever the call reported as unslept when a signal
/// interrupted it.
pub fn sleep_remaining(secs: u64, req_sec: i64, outcome: SleepOutcome) -> (rem: (u64, u32))
    requires
        0 <= req_sec <= secs,
        outcome matches SleepOutcome::Interrupted(rs, rn) ==> 0 <= rs <= req_sec && 0 <= rn
            < 1_000_000_000,
    ensures
        match outcome {
            SleepOutcome::Completed => rem.0 == secs - req_sec && rem.1 == 0,
            SleepOutcome::Interrupted(rs, rn) => rem.0 == secs - req_sec + rs && rem.1 == rn,
        },
{
    let outer = secs - (req_sec as u64);
    match outcome {
        SleepOutcome::Completed => (outer, 0),
        SleepOutcome::Interrupted(rs, rn) => (outer + (rs as u64), rn as u32),
    }
}

} // verus!
