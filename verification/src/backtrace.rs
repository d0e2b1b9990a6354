//! Stack backtraces, fully disabled: capturing is unsupported on this
//! platform, and a backtrace never holds any frames.

use vstd::prelude::*;

verus! {

/// The status of a backtrace: whether one was captured, or why not.
#[derive(Debug, PartialEq, Eq, Structural)]
#[non_exhaustive]
pub enum BacktraceStatus {
    /// Capturing a backtrace is not supported on this platform.
    Unsupported,
    /// Capturing was disabled by configuration.
    Disabled,
    /// A backtrace was captured.
    Captured,
}

/// A captured stack backtrace of the current thread; here always empty.
#[must_use]
pub struct Backtrace {
    disabled: bool,
    frames: Vec<BacktraceFrame>,
}

/// A single frame of a backtrace.  None is ever produced here.
pub struct BacktraceFrame {
    #[allow(dead_code)]
    _priv: (),
}

impl Backtrace {
    /// Whether this backtrace reports itself as disabled rather than
    /// unsupported.
    pub closed spec fn disabled_spec(self) -> bool {
        self.disabled
    }

    pub closed spec fn frames_spec(self) -> Seq<BacktraceFrame> {
        self.frames@
    }

    /// Captures a backtrace of the current thread; on this platform that is
    /// unsupported, so the result is empty.
    pub fn capture() -> (bt: Backtrace)
        ensures
            !bt.disabled_spec(),
            bt.frames_spec().len() == 0,
    {
        Backtrace { disabled: false, frames: Vec::new() }
    }

    /// Captures regardless of configuration; equally unsupported here.
    pub fn force_capture() -> (bt: Backtrace)
        ensures
            !bt.disabled_spec(),
            bt.frames_spec().len() == 0,
    {
        Backtrace { disabled: false, frames: Vec::new() }
    }

    /// A backtrace that reports itself as disabled by configuration.
    pub fn disabled() -> (bt: Backtrace)
        ensures
            bt.disabled_spec(),
            bt.frames_spec().len() == 0,
    {
        Backtrace { disabled: true, frames: Vec::new() }
    }

    pub fn status(&self) -> (s: BacktraceStatus)
        ensures
            s == if self.disabled_spec() {
                BacktraceStatus::Disabled
            } else {
                BacktraceStatus::Unsupported
            },
    {
        if self.disabled {
            BacktraceStatus::Disabled
        } else {
            BacktraceStatus::Unsupported
        }
    }

    /// The captured frames; always none.
    pub fn frames(&self) -> (out: &[BacktraceFrame])
        ensures
            out@ == self.frames_spec(),
    {
        self.frames.as_slice()
    }
}

/// Marks the near end of the backtrace region of interest; the wrapped
/// entry point runs unchanged.
pub fn __rust_begin_short_backtrace<F: FnOnce() -> T, T>(f: F) -> (result: T)
    requires
        f.requires(()),
    ensures
        f.ensures((), result),
{
    f()
}

/// Marks the far end of the backtrace region of interest; the wrapped
/// entry point runs unchanged.
pub fn __rust_end_short_backtrace<F: FnOnce() -> T, T>(f: F) -> (result: T)
    requires
        f.requires(()),
    ensures
        f.ensures((), result),
{
    f()
}

} // verus!
