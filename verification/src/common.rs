//! Shared helpers of the platform layer: translating native return values
//! into results, the decision rule of the interrupted-call retry helper, and
//! the pure decisions of runtime startup (standard-stream sanitizing and the
//! broken-pipe signal disposition).  The native calls these decisions drive
//! are outside work that the program shell performs.

use vstd::prelude::*;
use crate::error::{unsupported, ErrorKind, IoError};

verus! {

/// A native return value that signals failure as minus one.
pub trait IsMinusOne {
    spec fn is_minus_one_spec(&self) -> bool;

    fn is_minus_one(&self) -> (r: bool)
        ensures
            r == self.is_minus_one_spec(),
    ;
}

impl IsMinusOne for i8 {
    open spec fn is_minus_one_spec(&self) -> bool {
        *self == -1
    }

    fn is_minus_one(&self) -> (r: bool)
        ensures
            r == self.is_minus_one_spec(),
    {
        *self == -1
    }
}

impl IsMinusOne for i16 {
    open spec fn is_minus_one_spec(&self) -> bool {
        *self == -1
    }

    fn is_minus_one(&self) -> (r: bool)
        ensures
            r == self.is_minus_one_spec(),
    {
        *self == -1
    }
}

impl IsMinusOne for i32 {
    open spec fn is_minus_one_spec(&self) -> bool {
        *self == -1
    }

    fn is_minus_one(&self) -> (r: bool)
        ensures
            r == self.is_minus_one_spec(),
    {
        *self == -1
    }
}

impl IsMinusOne for i64 {
    open spec fn is_minus_one_spec(&self) -> bool {
        *self == -1
    }

    fn is_minus_one(&self) -> (r: bool)
        ensures
            r == self.is_minus_one_spec(),
    {
        *self == -1
    }
}

impl IsMinusOne for isize {
    open spec fn is_minus_one_spec(&self) -> bool {
        *self == -1
    }

    fn is_minus_one(&self) -> (r: bool)
        ensures
            r == self.is_minus_one_spec(),
    {
        *self == -1
    }
}

/// Translates a native return value: minus one becomes the uniform
/// `Unsupported` failure of this backend, anything else passes through.
pub fn cvt_unsup<T: IsMinusOne + Copy>(t: T) -> (r: Result<T, IoError>)
    ensures
        t.is_minus_one_spec() ==> (r is Err && r->Err_0.is_unsupported()),
        !t.is_minus_one_spec() ==> r == Ok::<T, IoError>(t),
{
    if t.is_minus_one() {
        unsupported()
    } else {
        Ok(t)
    }
}

/// What the interrupted-call retry helper does after one native call.
#[derive(Clone, Copy, Debug, PartialEq, Eq, Structural)]
pub enum RetryStep {
    /// The call succeeded; hand its value through.
    Done,
    /// The call failed with an interruption; transparently retry it.
    Retry,
    /// The call failed for any other reason; surface the failure.
    Fail,
}

/// The decision rule of the retry helper: retry exactly when the native call
/// failed with "interrupted", surface every other failure, and stop on
/// success.
pub fn retry_decision(is_minus_one: bool, kind: ErrorKind) -> (step: RetryStep)
    ensures
        !is_minus_one ==> step == RetryStep::Done,
        is_minus_one && kind == ErrorKind::Interrupted ==> step == RetryStep::Retry,
        is_minus_one && kind != ErrorKind::Interrupted ==> step == RetryStep::Fail,
{
    if !is_minus_one {
        RetryStep::Done
    } else if kind == ErrorKind::Interrupted {
        RetryStep::Retry
    } else {
        RetryStep::Fail
    }
}

/// The poll event bit marking a closed standard descriptor (Linux).
pub const POLLNVAL: i16 = 32;

/// Whether a polled standard descriptor turned out closed and must be
/// reopened onto the null device before anything else runs.
pub fn needs_reopen(revents: i16) -> (r: bool)
    ensures
        r <==> (revents & POLLNVAL) != 0,
{
    revents & POLLNVAL != 0
}

/// The build-time encodings of the requested broken-pipe disposition.
pub const SIGPIPE_INHERIT: u8 = 1;
pub const SIGPIPE_SIG_IGN: u8 = 2;
pub const SIGPIPE_SIG_DFL: u8 = 3;

/// What startup installs as the broken-pipe signal handler.
#[derive(Clone, Copy, Debug, PartialEq, Eq, Structural)]
pub enum SigpipeDisposition {
    /// Leave whatever disposition the process inherited.
    Inherit,
    /// Install "ignore", so a broken pipe surfaces as an error instead of a
    /// killing signal.
    Ignore,
    /// Install the system default disposition.
    Default,
}

/// The disposition that a requested encoding denotes.  Startup is the only
/// caller and only ever passes the three defined encodings.
pub fn sigpipe_disposition(sigpipe: u8) -> (d: SigpipeDisposition)
    requires
        sigpipe == SIGPIPE_INHERIT || sigpipe == SIGPIPE_SIG_IGN || sigpipe == SIGPIPE_SIG_DFL,
    ensures
        sigpipe == SIGPIPE_INHERIT ==> d == SigpipeDisposition::Inherit,
        sigpipe == SIGPIPE_SIG_IGN ==> d == SigpipeDisposition::Ignore,
        sigpipe == SIGPIPE_SIG_DFL ==> d == SigpipeDisposition::Default,
{
    if sigpipe == SIGPIPE_INHERIT {
        SigpipeDisposition::Inherit
    } else if sigpipe == SIGPIPE_SIG_IGN {
        SigpipeDisposition::Ignore
    } else {
        SigpipeDisposition::Default
    }
}

} // verus!
