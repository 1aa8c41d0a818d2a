//! The protobuf `Duration` and its bridge to a signed nanosecond interval.

use crate::arith::{trunc_div, trunc_div_rem, trunc_rem};
use crate::error::TimeError;
use crate::timestamp::NANOS_PER_SECOND;
use vstd::prelude::*;

verus! {

/// Largest magnitude of `nanos` in a canonical `Duration`.
pub const NANOS_MAX: i32 = 999_999_999;

/// A signed span of time: `seconds` plus `nanos`.
#[derive(Debug, Clone, Copy, PartialEq, Eq, Structural)]
pub struct Duration {
    pub seconds: i64,
    pub nanos: i32,
}

/// A signed interval counted in nanoseconds.
#[derive(Debug, Clone, Copy, PartialEq, Eq, Structural)]
pub struct Interval {
    pub nanos: i128,
}

/// Whether the whole seconds of `total` nanoseconds (rounded toward zero) fit an `i64`.
pub open spec fn interval_fits(total: int) -> bool {
    i64::MIN <= trunc_div(total, NANOS_PER_SECOND as int) <= i64::MAX
}

/// The duration of `total` nanoseconds: whole seconds toward zero and the
/// remainder, which carries the sign of `total`.
pub open spec fn duration_of(total: int) -> Duration {
    Duration {
        seconds: trunc_div(total, NANOS_PER_SECOND as int) as i64,
        nanos: trunc_rem(total, NANOS_PER_SECOND as int) as i32,
    }
}

impl Duration {
    /// The span in nanoseconds.
    pub open spec fn total_nanos(self) -> int {
        self.seconds * NANOS_PER_SECOND + self.nanos
    }

    /// Canonical form: `|nanos| < 10^9` and `nanos` does not disagree in sign with `seconds`.
    pub open spec fn is_canonical(self) -> bool {
        &&& -NANOS_PER_SECOND < self.nanos < NANOS_PER_SECOND
        &&& self.seconds > 0 ==> self.nanos >= 0
        &&& self.seconds < 0 ==> self.nanos <= 0
    }

    /// The canonical duration of the same span; where its seconds do not fit
    /// an `i64` it saturates to the least or greatest representable value.
    pub open spec fn normalized(self) -> Duration {
        let t = self.total_nanos();
        let s = trunc_div(t, NANOS_PER_SECOND as int);
        if s < i64::MIN {
            Duration { seconds: i64::MIN, nanos: -999_999_999i32 }
        } else if s > i64::MAX {
            Duration { seconds: i64::MAX, nanos: NANOS_MAX }
        } else {
            duration_of(t)
        }
    }

    /// Brings the duration to canonical form in place.
    pub fn normalize(&mut self)
        ensures
            *final(self) == old(self).normalized(),
            final(self).is_canonical(),
    {
        let total: i128 = (self.seconds as i128) * 1_000_000_000i128 + (self.nanos as i128);
        let (q, r) = trunc_div_rem(total, NANOS_PER_SECOND as u64);
        if q < i64::MIN as i128 {
            self.seconds = i64::MIN;
            self.nanos = -NANOS_MAX;
        } else if q > i64::MAX as i128 {
            self.seconds = i64::MAX;
            self.nanos = NANOS_MAX;
        } else {
            self.seconds = q as i64;
            self.nanos = r as i32;
        }
    }

    /// The signed interval `seconds * 10^9 + nanos`.
    pub fn to_interval(&self) -> (r: Interval)
        ensures
            r.nanos == self.total_nanos(),
    {
        Interval { nanos: (self.seconds as i128) * 1_000_000_000i128 + (self.nanos as i128) }
    }

    /// The duration of a signed interval: whole seconds toward zero and the
    /// nanosecond remainder with the interval's sign. Fails where the seconds
    /// do not fit an `i64`.
    pub fn from_interval(i: Interval) -> (r: Result<Duration, TimeError>)
        ensures
            r is Ok <==> interval_fits(i.nanos as int),
            r is Ok ==> r->Ok_0 == duration_of(i.nanos as int),
            r is Err ==> r->Err_0 == (TimeError::IntervalOutOfRange { total_nanos: i.nanos }),
    {
        if i.nanos == i128::MIN {
            return Err(TimeError::IntervalOutOfRange { total_nanos: i.nanos });
        }
        let (q, rem) = trunc_div_rem(i.nanos, NANOS_PER_SECOND as u64);
        if q < i64::MIN as i128 || q > i64::MAX as i128 {
            Err(TimeError::IntervalOutOfRange { total_nanos: i.nanos })
        } else {
            Ok(Duration { seconds: q as i64, nanos: rem as i32 })
        }
    }
}

/// A canonical duration is the split of its own span.
proof fn lemma_canonical_is_split(d: Duration)
    requires
        d.is_canonical(),
    ensures
        interval_fits(d.total_nanos()),
        duration_of(d.total_nanos()) == d,
{
    let t = d.total_nanos();
    let n = NANOS_PER_SECOND as int;
    if t >= 0 {
        assert(d.seconds >= 0);
        assert(d.nanos >= 0);
        assert(t / n == d.seconds as int) by (nonlinear_arith)
            requires
                t == d.seconds * n + d.nanos,
                0 <= d.nanos < n,
                n > 0,
        ;
    } else {
        assert(d.seconds <= 0);
        assert(d.nanos <= 0);
        assert((-t) / n == -(d.seconds as int)) by (nonlinear_arith)
            requires
                -t == (-d.seconds) * n + (-d.nanos),
                0 <= -d.nanos < n,
                n > 0,
        ;
    }
}

/// Normalizing a duration twice gives the same value as normalizing it once.
pub proof fn lemma_duration_normalize_idempotent(d: Duration)
    ensures
        d.normalized().normalized() == d.normalized(),
        d.normalized().is_canonical(),
{
    let t = d.total_nanos();
    let n = NANOS_PER_SECOND as int;
    let q = trunc_div(t, n);
    if i64::MIN <= q <= i64::MAX {
        if t >= 0 {
            assert(0 <= t - (t / n) * n < n) by (nonlinear_arith)
                requires
                    n > 0,
                    t >= 0,
            ;
            assert(t / n >= 0) by (nonlinear_arith)
                requires
                    n > 0,
                    t >= 0,
            ;
        } else {
            assert(0 <= (-t) - ((-t) / n) * n < n) by (nonlinear_arith)
                requires
                    n > 0,
                    t < 0,
            ;
            assert((-t) / n >= 0) by (nonlinear_arith)
                requires
                    n > 0,
                    t < 0,
            ;
        }
    }
    lemma_canonical_is_split(d.normalized());
}

/// For a canonical duration, turning its interval back into a duration
/// succeeds and gives the same interval (and indeed the same duration).
pub proof fn lemma_interval_round_trip(d: Duration)
    requires
        d.is_canonical(),
    ensures
        interval_fits(d.total_nanos()),
        duration_of(d.total_nanos()).total_nanos() == d.total_nanos(),
        duration_of(d.total_nanos()) == d,
{
    lemma_canonical_is_split(d);
}

} // verus!
