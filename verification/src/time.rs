//! Timestamp and duration arithmetic: a fixed-point time representation
//! (seconds plus nanoseconds) with overflow-checked addition and subtraction
//! against an unsigned duration, shared by the calendar clock and the
//! monotonic clock.

use vstd::prelude::*;
use vstd::arithmetic::div_mod::{
    lemma_fundamental_div_mod, lemma_fundamental_div_mod_converse_div,
    lemma_fundamental_div_mod_converse_mod,
};

verus! {

/// Nanoseconds in one second.
pub const NANOS_PER_SEC: u64 = 1_000_000_000;

/// An unsigned span of time: whole seconds plus a sub-second nanosecond part.
#[derive(Clone, Copy, Debug, Hash, PartialEq, Eq, Structural)]
pub struct Duration {
    pub secs: u64,
    pub nanos: u32,
}

impl Duration {
    /// The nanosecond part never reaches a full second.
    pub open spec fn wf(self) -> bool {
        self.nanos < NANOS_PER_SEC
    }

    /// The span as a single nanosecond count.
    pub open spec fn as_nanos_spec(self) -> int {
        self.secs * NANOS_PER_SEC + self.nanos
    }

    pub fn new(secs: u64, nanos: u32) -> (d: Duration)
        requires
            nanos < NANOS_PER_SEC,
        ensures
            d == (Duration { secs, nanos }),
            d.wf(),
    {
        Duration { secs, nanos }
    }

    pub fn from_secs(secs: u64) -> (d: Duration)
        ensures
            d == (Duration { secs, nanos: 0u32 }),
            d.wf(),
    {
        Duration { secs, nanos: 0 }
    }

    pub fn as_secs(&self) -> (secs: u64)
        ensures
            secs == self.secs,
    {
        self.secs
    }

    pub fn subsec_nanos(&self) -> (nanos: u32)
        ensures
            nanos == self.nanos,
    {
        self.nanos
    }

    pub fn is_zero(&self) -> (z: bool)
        ensures
            z <==> self.as_nanos_spec() == 0,
    {
        self.secs == 0 && self.nanos == 0
    }
}

/// The well-formed duration denoting `n` nanoseconds.
pub open spec fn duration_from_nanos(n: int) -> Duration
    recommends
        0 <= n <= u64::MAX * NANOS_PER_SEC + (NANOS_PER_SEC - 1),
{
    Duration {
        secs: (n / (NANOS_PER_SEC as int)) as u64,
        nanos: (n % (NANOS_PER_SEC as int)) as u32,
    }
}

/// A point in time: signed seconds relative to a clock's origin, plus a
/// nanosecond part normalized to `[0, NANOS_PER_SEC)`.
#[derive(Clone, Copy, Debug, Hash, PartialEq, Eq, Structural)]
pub struct Timespec {
    pub tv_sec: i64,
    pub tv_nsec: i64,
}

/// The well-formed timestamp denoting `n` nanoseconds from the origin.
pub open spec fn timespec_from_total(n: int) -> Timespec
    recommends
        i64::MIN * NANOS_PER_SEC <= n <= i64::MAX * NANOS_PER_SEC + (NANOS_PER_SEC - 1),
{
    Timespec {
        tv_sec: (n / (NANOS_PER_SEC as int)) as i64,
        tv_nsec: (n % (NANOS_PER_SEC as int)) as i64,
    }
}

impl Timespec {
    /// The nanosecond part stays normalized to `[0, NANOS_PER_SEC)` after any
    /// arithmetic.
    pub open spec fn wf(self) -> bool {
        0 <= self.tv_nsec < NANOS_PER_SEC
    }

    /// The timestamp as a single signed nanosecond count from the origin.
    pub open spec fn total_nanos(self) -> int {
        self.tv_sec * NANOS_PER_SEC + self.tv_nsec
    }

    /// The signed difference of two timestamps: `Ok` carries a non-negative
    /// difference, `Err` carries the magnitude of a negative one.
    pub open spec fn sub_timespec_spec(self, other: Timespec) -> Result<Duration, Duration> {
        if self.total_nanos() >= other.total_nanos() {
            Ok(duration_from_nanos(self.total_nanos() - other.total_nanos()))
        } else {
            Err(duration_from_nanos(other.total_nanos() - self.total_nanos()))
        }
    }

    /// Whether adding `d` keeps the seconds within the signed 64-bit range.
    pub open spec fn checked_add_ok(self, d: Duration) -> bool {
        d.secs <= i64::MAX && self.total_nanos() + d.as_nanos_spec() <= i64::MAX * NANOS_PER_SEC
            + (NANOS_PER_SEC - 1)
    }

    pub open spec fn checked_add_spec(self, d: Duration) -> Option<Timespec> {
        if self.checked_add_ok(d) {
            Some(timespec_from_total(self.total_nanos() + d.as_nanos_spec()))
        } else {
            None
        }
    }

    /// Whether subtracting `d` keeps the seconds within the signed 64-bit
    /// range.
    pub open spec fn checked_sub_ok(self, d: Duration) -> bool {
        d.secs <= i64::MAX && self.total_nanos() - d.as_nanos_spec() >= i64::MIN * NANOS_PER_SEC
    }

    pub open spec fn checked_sub_spec(self, d: Duration) -> Option<Timespec> {
        if self.checked_sub_ok(d) {
            Some(timespec_from_total(self.total_nanos() - d.as_nanos_spec()))
        } else {
            None
        }
    }

    pub fn zero() -> (t: Timespec)
        ensures
            t == (Timespec { tv_sec: 0i64, tv_nsec: 0i64 }),
            t.wf(),
    {
        Timespec { tv_sec: 0, tv_nsec: 0 }
    }

    pub fn new(tv_sec: i64, tv_nsec: i64) -> (t: Timespec)
        requires
            0 <= tv_nsec < NANOS_PER_SEC,
        ensures
            t == (Timespec { tv_sec, tv_nsec }),
            t.wf(),
    {
        Timespec { tv_sec, tv_nsec }
    }

    pub fn sub_timespec(&self, other: &Timespec) -> (r: Result<Duration, Duration>)
        requires
            self.wf(),
            other.wf(),
        ensures
            r == self.sub_timespec_spec(*other),
    {
        let ge = if self.tv_sec == other.tv_sec {
            self.tv_nsec >= other.tv_nsec
        } else {
            self.tv_sec > other.tv_sec
        };
        if ge {
            Ok(sub_ordered(self, other))
        } else {
            Err(sub_ordered(other, self))
        }
    }

    pub fn checked_add_duration(&self, other: &Duration) -> (r: Option<Timespec>)
        requires
            self.wf(),
            other.wf(),
        ensures
            r == self.checked_add_spec(*other),
    {
        if other.secs > i64::MAX as u64 {
            return None;
        }
        let dsecs: i64 = other.secs as i64;
        let secs = match self.tv_sec.checked_add(dsecs) {
            Some(s) => s,
            None => {
                return None;
            },
        };
        // The nanosecond parts are each below one second, so their sum fits
        // comfortably in a `u32`.
        let mut nsec: u32 = other.nanos + self.tv_nsec as u32;
        if nsec >= NANOS_PER_SEC as u32 {
            nsec = nsec - NANOS_PER_SEC as u32;
            let secs2 = match secs.checked_add(1) {
                Some(s) => s,
                None => {
                    return None;
                },
            };
            let t = Timespec { tv_sec: secs2, tv_nsec: nsec as i64 };
            proof {
                lemma_total_form(t, self.total_nanos() + other.as_nanos_spec());
            }
            Some(t)
        } else {
            let t = Timespec { tv_sec: secs, tv_nsec: nsec as i64 };
            proof {
                lemma_total_form(t, self.total_nanos() + other.as_nanos_spec());
            }
            Some(t)
        }
    }

    pub fn checked_sub_duration(&self, other: &Duration) -> (r: Option<Timespec>)
        requires
            self.wf(),
            other.wf(),
        ensures
            r == self.checked_sub_spec(*other),
    {
        if other.secs > i64::MAX as u64 {
            return None;
        }
        let dsecs: i64 = other.secs as i64;
        let secs = match self.tv_sec.checked_sub(dsecs) {
            Some(s) => s,
            None => {
                return None;
            },
        };
        // Both nanosecond parts are below one second, so the difference fits
        // in an `i32`.
        let nsec_diff: i32 = self.tv_nsec as i32 - other.nanos as i32;
        if nsec_diff < 0 {
            let nsec: i32 = nsec_diff + NANOS_PER_SEC as i32;
            let secs2 = match secs.checked_sub(1) {
                Some(s) => s,
                None => {
                    return None;
                },
            };
            let t = Timespec { tv_sec: secs2, tv_nsec: nsec as i64 };
            proof {
                lemma_total_form(t, self.total_nanos() - other.as_nanos_spec());
            }
            Some(t)
        } else {
            let t = Timespec { tv_sec: secs, tv_nsec: nsec_diff as i64 };
            proof {
                lemma_total_form(t, self.total_nanos() - other.as_nanos_spec());
            }
            Some(t)
        }
    }
}

/// The difference of two ordered timestamps as a duration.
fn sub_ordered(a: &Timespec, b: &Timespec) -> (d: Duration)
    requires
        a.wf(),
        b.wf(),
        a.total_nanos() >= b.total_nanos(),
    ensures
        d == duration_from_nanos(a.total_nanos() - b.total_nanos()),
        d.wf(),
{
    let (secs, nsec): (u64, u32) = if a.tv_nsec >= b.tv_nsec {
        proof {
            // Equal-or-larger nanosecond part forces an equal-or-larger
            // seconds part.
            assert(a.tv_sec >= b.tv_sec);
        }
        (((a.tv_sec as i128) - (b.tv_sec as i128)) as u64, (a.tv_nsec - b.tv_nsec) as u32)
    } else {
        proof {
            // Borrowing a second from the minuend: the seconds part must be
            // strictly larger.
            assert(a.tv_sec > b.tv_sec);
        }
        (
            ((a.tv_sec as i128) - (b.tv_sec as i128) - 1) as u64,
            (a.tv_nsec as u32) + (NANOS_PER_SEC as u32) - (b.tv_nsec as u32),
        )
    };
    let d = Duration { secs, nanos: nsec };
    proof {
        lemma_duration_form(d, a.total_nanos() - b.total_nanos());
    }
    d
}

/// A well-formed duration whose fields sum to `n` nanoseconds is exactly
/// `duration_from_nanos(n)`.
proof fn lemma_duration_form(d: Duration, n: int)
    requires
        d.wf(),
        d.as_nanos_spec() == n,
    ensures
        d == duration_from_nanos(n),
{
    lemma_fundamental_div_mod_converse_div(
        n,
        NANOS_PER_SEC as int,
        d.secs as int,
        d.nanos as int,
    );
    lemma_fundamental_div_mod_converse_mod(
        n,
        NANOS_PER_SEC as int,
        d.secs as int,
        d.nanos as int,
    );
}

/// A well-formed timestamp whose fields sum to `n` nanoseconds is exactly
/// `timespec_from_total(n)`.
proof fn lemma_total_form(t: Timespec, n: int)
    requires
        t.wf(),
        t.total_nanos() == n,
    ensures
        t == timespec_from_total(n),
{
    lemma_fundamental_div_mod_converse_div(
        n,
        NANOS_PER_SEC as int,
        t.tv_sec as int,
        t.tv_nsec as int,
    );
    lemma_fundamental_div_mod_converse_mod(
        n,
        NANOS_PER_SEC as int,
        t.tv_sec as int,
        t.tv_nsec as int,
    );
}

/// Two well-formed timestamps denoting the same nanosecond count are equal.
pub proof fn lemma_total_nanos_injective(a: Timespec, b: Timespec)
    requires
        a.wf(),
        b.wf(),
        a.total_nanos() == b.total_nanos(),
    ensures
        a == b,
{
    lemma_total_form(a, a.total_nanos());
    lemma_total_form(b, b.total_nanos());
}

/// Timestamp subtraction is a sign-flipped inverse of itself: when the
/// operands differ, one order yields `Ok(d)` exactly when the other yields
/// `Err(d)` with the same magnitude; equal operands yield `Ok` of the zero
/// duration both ways.
pub proof fn lemma_sub_timespec_sign_flip(a: Timespec, b: Timespec)
    requires
        a.wf(),
        b.wf(),
    ensures
        a.total_nanos() != b.total_nanos() ==> (forall|d: Duration|
            a.sub_timespec_spec(b) == Ok::<Duration, Duration>(d) <==> b.sub_timespec_spec(a)
                == Err::<Duration, Duration>(d)),
        a.total_nanos() == b.total_nanos() ==> a.sub_timespec_spec(b) == Ok::<Duration, Duration>(
            duration_from_nanos(0),
        ) && b.sub_timespec_spec(a) == Ok::<Duration, Duration>(duration_from_nanos(0)),
{
}

/// Adding a duration and then subtracting it returns to the starting
/// timestamp; the subtraction step cannot overflow once the addition
/// succeeded.
pub proof fn lemma_checked_add_sub_round_trip(t: Timespec, d: Duration)
    requires
        t.wf(),
        d.wf(),
    ensures
        t.checked_add_spec(d) matches Some(u) ==> u.checked_sub_spec(d) == Some(t),
{
    if t.checked_add_spec(d) is Some {
        let n = t.total_nanos() + d.as_nanos_spec();
        let u = timespec_from_total(n);
        lemma_fundamental_div_mod(n, NANOS_PER_SEC as int);
        assert(i64::MIN * NANOS_PER_SEC <= n);
        assert(u.wf() && u.total_nanos() == n) by {
            lemma_div_bounds(n);
        }
        assert(u.checked_sub_ok(d));
        lemma_total_form(t, u.total_nanos() - d.as_nanos_spec());
    }
}

/// The quotient of a representable nanosecond count by one second fits in a
/// signed 64-bit seconds field.
proof fn lemma_div_bounds(n: int)
    requires
        i64::MIN * NANOS_PER_SEC <= n <= i64::MAX * NANOS_PER_SEC + (NANOS_PER_SEC - 1),
    ensures
        i64::MIN <= n / (NANOS_PER_SEC as int) <= i64::MAX,
        timespec_from_total(n).wf(),
        timespec_from_total(n).total_nanos() == n,
{
    lemma_fundamental_div_mod(n, NANOS_PER_SEC as int);
}

/// The lexicographic comparison of two timestamps: seconds first, then the
/// nanosecond part.
pub open spec fn timespec_cmp_spec(a: Timespec, b: Timespec) -> core::cmp::Ordering {
    if a.tv_sec < b.tv_sec {
        core::cmp::Ordering::Less
    } else if a.tv_sec > b.tv_sec {
        core::cmp::Ordering::Greater
    } else if a.tv_nsec < b.tv_nsec {
        core::cmp::Ordering::Less
    } else if a.tv_nsec > b.tv_nsec {
        core::cmp::Ordering::Greater
    } else {
        core::cmp::Ordering::Equal
    }
}

fn timespec_cmp(a: &Timespec, b: &Timespec) -> (r: Option<core::cmp::Ordering>)
    ensures
        r == Some(timespec_cmp_spec(*a, *b)),
{
    if a.tv_sec < b.tv_sec {
        Some(core::cmp::Ordering::Less)
    } else if a.tv_sec > b.tv_sec {
        Some(core::cmp::Ordering::Greater)
    } else if a.tv_nsec < b.tv_nsec {
        Some(core::cmp::Ordering::Less)
    } else if a.tv_nsec > b.tv_nsec {
        Some(core::cmp::Ordering::Greater)
    } else {
        Some(core::cmp::Ordering::Equal)
    }
}

impl PartialOrd for Timespec {
    fn partial_cmp(&self, other: &Timespec) -> (r: Option<core::cmp::Ordering>) {
        timespec_cmp(self, other)
    }
}

impl vstd::std_specs::cmp::PartialOrdSpecImpl for Timespec {
    open spec fn obeys_partial_cmp_spec() -> bool {
        true
    }

    open spec fn partial_cmp_spec(&self, other: &Timespec) -> Option<core::cmp::Ordering> {
        Some(timespec_cmp_spec(*self, *other))
    }
}

/// On well-formed timestamps, the field-by-field order is exactly the order
/// of the nanosecond counts they denote.
pub proof fn lemma_timespec_order_matches_total(a: Timespec, b: Timespec)
    requires
        a.wf(),
        b.wf(),
    ensures
        timespec_cmp_spec(a, b) == core::cmp::Ordering::Less <==> a.total_nanos()
            < b.total_nanos(),
        timespec_cmp_spec(a, b) == core::cmp::Ordering::Equal <==> a.total_nanos()
            == b.total_nanos(),
        timespec_cmp_spec(a, b) == core::cmp::Ordering::Greater <==> a.total_nanos()
            > b.total_nanos(),
{
}

/// Calendar time: a timestamp anchored at the epoch of the system clock.
#[derive(Clone, Copy, Debug, Hash, PartialEq, Eq, Structural)]
pub struct SystemTime {
    pub t: Timespec,
}

impl SystemTime {
    pub open spec fn wf(self) -> bool {
        self.t.wf()
    }

    pub fn new(tv_sec: i64, tv_nsec: i64) -> (st: SystemTime)
        requires
            0 <= tv_nsec < NANOS_PER_SEC,
        ensures
            st.t == (Timespec { tv_sec, tv_nsec }),
            st.wf(),
    {
        SystemTime { t: Timespec::new(tv_sec, tv_nsec) }
    }

    pub fn sub_time(&self, other: &SystemTime) -> (r: Result<Duration, Duration>)
        requires
            self.wf(),
            other.wf(),
        ensures
            r == self.t.sub_timespec_spec(other.t),
    {
        self.t.sub_timespec(&other.t)
    }

    pub fn checked_add_duration(&self, other: &Duration) -> (r: Option<SystemTime>)
        requires
            self.wf(),
            other.wf(),
        ensures
            r matches Some(st) ==> Some(st.t) == self.t.checked_add_spec(*other),
            r is Some <==> self.t.checked_add_spec(*other) is Some,
    {
        match self.t.checked_add_duration(other) {
            Some(t) => Some(SystemTime { t }),
            None => None,
        }
    }

    pub fn checked_sub_duration(&self, other: &Duration) -> (r: Option<SystemTime>)
        requires
            self.wf(),
            other.wf(),
        ensures
            r matches Some(st) ==> Some(st.t) == self.t.checked_sub_spec(*other),
            r is Some <==> self.t.checked_sub_spec(*other) is Some,
    {
        match self.t.checked_sub_duration(other) {
            Some(t) => Some(SystemTime { t }),
            None => None,
        }
    }
}

impl PartialOrd for SystemTime {
    fn partial_cmp(&self, other: &SystemTime) -> (r: Option<core::cmp::Ordering>) {
        timespec_cmp(&self.t, &other.t)
    }
}

impl vstd::std_specs::cmp::PartialOrdSpecImpl for SystemTime {
    open spec fn obeys_partial_cmp_spec() -> bool {
        true
    }

    open spec fn partial_cmp_spec(&self, other: &SystemTime) -> Option<core::cmp::Ordering> {
        Some(timespec_cmp_spec(self.t, other.t))
    }
}

/// Monotonic time: a timestamp relative to the origin of the monotonic clock.
#[derive(Clone, Copy, Debug, Hash, PartialEq, Eq, Structural)]
pub struct Instant {
    pub t: Timespec,
}

impl Instant {
    pub open spec fn wf(self) -> bool {
        self.t.wf()
    }

    pub fn new(tv_sec: i64, tv_nsec: i64) -> (i: Instant)
        requires
            0 <= tv_nsec < NANOS_PER_SEC,
        ensures
            i.t == (Timespec { tv_sec, tv_nsec }),
            i.wf(),
    {
        Instant { t: Timespec::new(tv_sec, tv_nsec) }
    }

    pub fn checked_sub_instant(&self, other: &Instant) -> (r: Option<Duration>)
        requires
            self.wf(),
            other.wf(),
        ensures
            r == (match self.t.sub_timespec_spec(other.t) {
                Ok(d) => Some(d),
                Err(_) => None::<Duration>,
            }),
    {
        match self.t.sub_timespec(&other.t) {
            Ok(d) => Some(d),
            Err(_) => None,
        }
    }

    pub fn checked_add_duration(&self, other: &Duration) -> (r: Option<Instant>)
        requires
            self.wf(),
            other.wf(),
        ensures
            r matches Some(i) ==> Some(i.t) == self.t.checked_add_spec(*other),
            r is Some <==> self.t.checked_add_spec(*other) is Some,
    {
        match self.t.checked_add_duration(other) {
            Some(t) => Some(Instant { t }),
            None => None,
        }
    }

    pub fn checked_sub_duration(&self, other: &Duration) -> (r: Option<Instant>)
        requires
            self.wf(),
            other.wf(),
        ensures
            r matches Some(i) ==> Some(i.t) == self.t.checked_sub_spec(*other),
            r is Some <==> self.t.checked_sub_spec(*other) is Some,
    {
        match self.t.checked_sub_duration(other) {
            Some(t) => Some(Instant { t }),
            None => None,
        }
    }
}

impl PartialOrd for Instant {
    fn partial_cmp(&self, other: &Instant) -> (r: Option<core::cmp::Ordering>) {
        timespec_cmp(&self.t, &other.t)
    }
}

impl vstd::std_specs::cmp::PartialOrdSpecImpl for Instant {
    open spec fn obeys_partial_cmp_spec() -> bool {
        true
    }

    open spec fn partial_cmp_spec(&self, other: &Instant) -> Option<core::cmp::Ordering> {
        Some(timespec_cmp_spec(self.t, other.t))
    }
}

} // verus!
