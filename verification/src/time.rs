use vstd::prelude::*;

verus! {

/// A monotonic timestamp with millisecond resolution.
///
/// Like `std::time::Instant` but constructible from a raw number of
/// milliseconds, so that it can be compared against the timestamps the
/// kernel reports in its wakeup-source accounting table. Values are only
/// meaningful within a single boot session, which matches the daemon's
/// lifetime.
#[derive(Clone, Copy, Debug, PartialEq, Eq, Structural)]
pub struct MonotonicTimeMS(pub u64);

/// Relies on `nix::time::clock_gettime` with `CLOCK_MONOTONIC`: returns the
/// monotonic clock reading as whole seconds plus a nanosecond remainder in
/// `[0, 1_000_000_000)`, as clock_gettime(2) documents. A failure to read
/// the clock is fatal: the daemon cannot reason about wakeup timing without
/// it, so this call panics rather than returning.
#[verifier::external_body]
fn monotonic_clock_raw() -> (r: (i64, i64))
    ensures
        0 <= r.1 < 1_000_000_000,
{
    let ts = nix::time::clock_gettime(nix::time::ClockId::CLOCK_MONOTONIC)
        .expect("clock_gettime failed");
    (ts.tv_sec(), ts.tv_nsec())
}

/// The millisecond value a `(seconds, nanoseconds)` clock reading denotes:
/// the nanoseconds are floor-divided away, a negative reading clamps to zero
/// and one beyond `u64::MAX` milliseconds saturates.
pub open spec fn spec_millis_of_timespec(sec: int, nsec: int) -> int {
    if sec < 0 {
        0
    } else if sec * 1000 + nsec / 1_000_000 > u64::MAX {
        u64::MAX as int
    } else {
        sec * 1000 + nsec / 1_000_000
    }
}

impl MonotonicTimeMS {
    /// Converts a raw clock reading to whole milliseconds.
    pub fn from_timespec(sec: i64, nsec: i64) -> (r: Self)
        requires
            0 <= nsec < 1_000_000_000,
        ensures
            r.0 == spec_millis_of_timespec(sec as int, nsec as int),
    {
        if sec < 0 {
            MonotonicTimeMS(0)
        } else {
            let sub_ms: u64 = (nsec / 1_000_000) as u64;
            match (sec as u64).checked_mul(1000) {
                Some(m) => match m.checked_add(sub_ms) {
                    Some(v) => MonotonicTimeMS(v),
                    None => MonotonicTimeMS(u64::MAX),
                },
                None => MonotonicTimeMS(u64::MAX),
            }
        }
    }

    /// Samples the monotonic clock. The value depends on the moment of the
    /// call, so nothing can be promised of it beyond its type.
    pub fn now() -> (r: Self) {
        let (sec, nsec) = monotonic_clock_raw();
        Self::from_timespec(sec, nsec)
    }

    /// The duration, in milliseconds, from `other` to `self`. Only defined
    /// when `self` is not earlier than `other`.
    pub fn sub(self, other: Self) -> (r: u64)
        requires
            other.0 <= self.0,
        ensures
            r == self.0 - other.0,
    {
        self.0 - other.0
    }
}

impl From<u64> for MonotonicTimeMS {
    fn from(val: u64) -> (r: Self) {
        MonotonicTimeMS(val)
    }
}

impl vstd::std_specs::convert::FromSpecImpl<u64> for MonotonicTimeMS {
    open spec fn obeys_from_spec() -> bool {
        true
    }

    open spec fn from_spec(val: u64) -> Self {
        MonotonicTimeMS(val)
    }
}

} // verus!
