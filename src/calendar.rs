//! The bridge between `Timestamp` and UTC calendar instants, whose range is
//! the one chrono's `DateTime<Utc>` can represent.

use crate::error::TimeError;
use crate::timestamp::{Timestamp, NANOS_PER_SECOND};
use vstd::prelude::*;

verus! {

/// Seconds of -262143-01-01T00:00:00Z, the earliest UTC calendar instant.
pub const CHRONO_MIN_SECONDS: i64 = -8_334_601_228_800;

/// Seconds of +262142-12-31T23:59:59Z, the last whole second of the UTC calendar.
pub const CHRONO_MAX_SECONDS: i64 = 8_210_266_876_799;

/// Whether `seconds` names a second of the UTC calendar.
pub open spec fn in_calendar(seconds: int) -> bool {
    CHRONO_MIN_SECONDS <= seconds <= CHRONO_MAX_SECONDS
}

/// Relies on chrono's `DateTime::<Utc>::from_timestamp`: for nanoseconds below
/// one second it returns `Some` exactly when the day of `seconds` lies between
/// `NaiveDate::MIN` and `NaiveDate::MAX`.
#[verifier::external_body]
fn chrono_accepts(seconds: i64, nanos: u32) -> (r: bool)
    requires
        nanos < NANOS_PER_SECOND,
    ensures
        r == in_calendar(seconds as int),
{
    chrono::DateTime::<chrono::Utc>::from_timestamp(seconds, nanos).is_some()
}

/// A UTC calendar instant with nanosecond precision and no leap second.
#[derive(Debug, Clone, Copy, PartialEq, Eq)]
pub struct UtcDateTime {
    seconds: i64,
    nanos: u32,
}

impl UtcDateTime {
    #[verifier::type_invariant]
    spec fn inv(self) -> bool {
        &&& in_calendar(self.seconds as int)
        &&& self.nanos < NANOS_PER_SECOND
    }

    /// Whole seconds since the Unix epoch.
    pub closed spec fn epoch_seconds(self) -> i64 {
        self.seconds
    }

    /// Nanoseconds past the whole second.
    pub closed spec fn subsec_nanos(self) -> u32 {
        self.nanos
    }

    /// The instant `seconds` + `nanos` after the Unix epoch; `None` where
    /// `nanos` is not below one second or the instant is off the calendar.
    pub fn from_parts(seconds: i64, nanos: u32) -> (r: Option<UtcDateTime>)
        ensures
            r is Some <==> (nanos < NANOS_PER_SECOND && in_calendar(seconds as int)),
            r is Some ==> r->Some_0.epoch_seconds() == seconds && r->Some_0.subsec_nanos() == nanos,
    {
        if nanos >= NANOS_PER_SECOND as u32 {
            return None;
        }
        if chrono_accepts(seconds, nanos) {
            Some(UtcDateTime { seconds, nanos })
        } else {
            None
        }
    }

    /// Whole seconds since the Unix epoch.
    pub fn timestamp(&self) -> (r: i64)
        ensures
            r == self.epoch_seconds(),
            in_calendar(r as int),
    {
        proof {
            use_type_invariant(self);
        }
        self.seconds
    }

    /// Nanoseconds past the whole second.
    pub fn timestamp_subsec_nanos(&self) -> (r: u32)
        ensures
            r == self.subsec_nanos(),
            r < NANOS_PER_SECOND,
    {
        proof {
            use_type_invariant(self);
        }
        self.nanos
    }
}

impl Timestamp {
    /// The timestamp of a calendar instant; always canonical.
    pub fn from_datetime(dt: UtcDateTime) -> (r: Timestamp)
        ensures
            r.seconds == dt.epoch_seconds(),
            r.nanos == dt.subsec_nanos(),
            r.is_canonical(),
    {
        let seconds = dt.timestamp();
        let nanos = dt.timestamp_subsec_nanos();
        Timestamp { seconds, nanos: nanos as i32 }
    }

    /// The calendar instant of the normalized timestamp; fails where its
    /// seconds fall off the UTC calendar.
    pub fn to_datetime(&self) -> (r: Result<UtcDateTime, TimeError>)
        ensures
            r is Ok <==> in_calendar(self.normalized().seconds as int),
            r is Ok ==> r->Ok_0.epoch_seconds() == self.normalized().seconds
                && r->Ok_0.subsec_nanos() == self.normalized().nanos,
            r is Err ==> r->Err_0 == (TimeError::InstantOutOfRange {
                seconds: self.normalized().seconds,
                nanos: self.normalized().nanos,
            }),
    {
        let mut value = *self;
        value.normalize();
        match UtcDateTime::from_parts(value.seconds, value.nanos as u32) {
            Some(dt) => Ok(dt),
            None => Err(TimeError::InstantOutOfRange { seconds: value.seconds, nanos: value.nanos }),
        }
    }
}

} // verus!
