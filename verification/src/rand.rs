//! Randomness for hash-map keys.  The restricted backend hands out fixed
//! keys: it is single threaded, so the keys seed one cached hasher state and
//! need not be unpredictable across threads.  The pure parts of the
//! entropy-based path of the functional backends live here too: assembling
//! keys from gathered bytes, and the per-call decisions of the gathering
//! loops; the native calls themselves are outside work that the program shell
//! performs.

use vstd::prelude::*;
use vstd::bytes::{spec_u64_from_le_bytes, u64_from_le_bytes};
use crate::error::{EAGAIN, EINTR, ENOSYS, EPERM};

verus! {

/// Flags of the native entropy call (Linux).
pub const GRND_NONBLOCK: u32 = 1;
pub const GRND_INSECURE: u32 = 4;

/// The fixed hash-map keys of the restricted backend.
pub fn hashmap_random_keys() -> (keys: (u64, u64))
    ensures
        keys == (1u64, 2u64),
{
    (1, 2)
}

/// Assembles the two hash-map keys from sixteen gathered entropy bytes, in
/// the byte order of the target platform (little endian).
pub fn keys_from_bytes(v: &[u8]) -> (keys: (u64, u64))
    requires
        v@.len() == 16,
    ensures
        keys.0 == spec_u64_from_le_bytes(v@.subrange(0, 8)),
        keys.1 == spec_u64_from_le_bytes(v@.subrange(8, 16)),
{
    let lo = vstd::slice::slice_subrange(v, 0, 8);
    let hi = vstd::slice::slice_subrange(v, 8, 16);
    (u64_from_le_bytes(lo), u64_from_le_bytes(hi))
}

/// What to do next after one native entropy call.
#[derive(Clone, Copy, Debug, PartialEq, Eq, Structural)]
pub enum EntropyStep {
    /// The call produced that many bytes; account for them and go on.
    Progress(usize),
    /// The call was interrupted or failed transiently; ask again.
    Retry,
    /// The entropy source is unavailable; fall back to the device path.
    Fallback,
}

/// The decision after one native entropy call: progress on success, a retry
/// on interruption or any other transient failure, and the device fallback
/// when the source is absent or forbidden.
pub fn getrandom_decision(result: i64, errno: i32) -> (step: EntropyStep)
    requires
        result <= usize::MAX,
    ensures
        result >= 0 ==> step == EntropyStep::Progress(result as usize),
        result < 0 && (errno == ENOSYS || errno == EPERM || errno == EAGAIN) ==> step
            == EntropyStep::Fallback,
        result < 0 && !(errno == ENOSYS || errno == EPERM || errno == EAGAIN) ==> step
            == EntropyStep::Retry,
{
    if result >= 0 {
        EntropyStep::Progress(result as usize)
    } else if errno == ENOSYS || errno == EPERM || errno == EAGAIN {
        EntropyStep::Fallback
    } else {
        EntropyStep::Retry
    }
}

/// The flags for the next native entropy call: the best-quality non-blocking
/// request while it is known to be available, the plain non-blocking request
/// once it was refused.
pub fn getrandom_flags(insecure_available: bool) -> (flags: u32)
    ensures
        flags == if insecure_available {
            GRND_INSECURE
        } else {
            GRND_NONBLOCK
        },
{
    if insecure_available {
        GRND_INSECURE
    } else {
        GRND_NONBLOCK
    }
}

/// Whether the best-quality request is still worth making after a call made
/// with it: a rejection as invalid means the running kernel lacks the flag.
pub fn grnd_insecure_still_available(result: i64, errno: i32) -> (r: bool)
    ensures
        r <==> !(result == -1 && errno == crate::error::EINVAL),
{
    !(result == -1 && errno == crate::error::EINVAL)
}

/// What to do next after one read from the fallback entropy device.
#[derive(Clone, Copy, Debug, PartialEq, Eq, Structural)]
pub enum DeviceReadStep {
    /// The read produced that many bytes; account for them and go on.
    Progress(usize),
    /// The read was interrupted by a signal; ask again.
    Retry,
    /// The device is not delivering; give up on it.
    Stop,
}

/// The decision after one read from the fallback entropy device: progress on
/// bytes, a retry exactly on interruption, and otherwise giving up.
pub fn urandom_decision(result: i64, errno: i32) -> (step: DeviceReadStep)
    requires
        result <= usize::MAX,
    ensures
        result > 0 ==> step == DeviceReadStep::Progress(result as usize),
        result <= 0 && errno == EINTR ==> step == DeviceReadStep::Retry,
        result <= 0 && errno != EINTR ==> step == DeviceReadStep::Stop,
{
    if result > 0 {
        DeviceReadStep::Progress(result as usize)
    } else if errno == EINTR {
        DeviceReadStep::Retry
    } else {
        DeviceReadStep::Stop
    }
}

} // verus!
