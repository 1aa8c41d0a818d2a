//! The protobuf `Timestamp`: seconds and nanoseconds since the Unix epoch.

use crate::arith::floor_div_rem;
use vstd::arithmetic::div_mod::lemma_fundamental_div_mod_converse;
use vstd::prelude::*;

verus! {

/// Nanoseconds in one second.
pub const NANOS_PER_SECOND: i64 = 1_000_000_000;

/// Seconds of 0001-01-01T00:00:00Z, the earliest instant of the protobuf domain.
pub const MIN_SECONDS: i64 = -62_135_596_800;

/// Seconds of 9999-12-31T23:59:59Z, the last whole second of the protobuf domain.
pub const MAX_SECONDS: i64 = 253_402_300_799;

/// A point in time: `seconds` since 1970-01-01T00:00:00Z plus `nanos`.
#[derive(Debug, Clone, Copy, PartialEq, Eq, Structural)]
pub struct Timestamp {
    pub seconds: i64,
    pub nanos: i32,
}

impl Timestamp {
    /// The instant in nanoseconds since the Unix epoch.
    pub open spec fn total_nanos(self) -> int {
        self.seconds * NANOS_PER_SECOND + self.nanos
    }

    /// Canonical form: `0 <= nanos < 10^9`.
    pub open spec fn is_canonical(self) -> bool {
        0 <= self.nanos < NANOS_PER_SECOND
    }

    /// Canonical and inside 0001-01-01T00:00:00Z ..= 9999-12-31T23:59:59.999999999Z.
    pub open spec fn in_domain(self) -> bool {
        &&& self.is_canonical()
        &&& MIN_SECONDS <= self.seconds <= MAX_SECONDS
    }

    /// The canonical timestamp for the same instant; where its seconds do not
    /// fit an `i64` it saturates to the earliest or latest representable value.
    pub open spec fn normalized(self) -> Timestamp {
        let t = self.total_nanos();
        let s = t / (NANOS_PER_SECOND as int);
        if s < i64::MIN {
            Timestamp { seconds: i64::MIN, nanos: 0 }
        } else if s > i64::MAX {
            Timestamp { seconds: i64::MAX, nanos: 999_999_999 }
        } else {
            Timestamp { seconds: s as i64, nanos: (t % (NANOS_PER_SECOND as int)) as i32 }
        }
    }

    /// Brings the timestamp to canonical form in place.
    pub fn normalize(&mut self)
        ensures
            *final(self) == old(self).normalized(),
            0 <= final(self).nanos < NANOS_PER_SECOND,
    {
        let total: i128 = (self.seconds as i128) * 1_000_000_000i128 + (self.nanos as i128);
        let (q, r) = floor_div_rem(total, NANOS_PER_SECOND as u64);
        if q < i64::MIN as i128 {
            self.seconds = i64::MIN;
            self.nanos = 0;
        } else if q > i64::MAX as i128 {
            self.seconds = i64::MAX;
            self.nanos = 999_999_999;
        } else {
            self.seconds = q as i64;
            self.nanos = r as i32;
        }
    }
}

/// Normalizing a timestamp twice gives the same value as normalizing it once.
pub proof fn lemma_timestamp_normalize_idempotent(t: Timestamp)
    ensures
        t.normalized().normalized() == t.normalized(),
        t.normalized().is_canonical(),
{
    let n = t.normalized();
    lemma_fundamental_div_mod_converse(
        n.total_nanos(),
        NANOS_PER_SECOND as int,
        n.seconds as int,
        n.nanos as int,
    );
}

} // verus!
