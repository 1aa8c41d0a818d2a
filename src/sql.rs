//! PostgreSQL binary `TIMESTAMP` / `TIMESTAMPTZ` values: a signed count of
//! microseconds from the PostgreSQL epoch.

use crate::arith::{floor_div_rem, trunc_div};
use crate::error::TimeError;
use crate::timestamp::{Timestamp, MAX_SECONDS, MIN_SECONDS};
use vstd::arithmetic::div_mod::lemma_fundamental_div_mod_converse;
use vstd::prelude::*;

verus! {

/// Microseconds from the Unix epoch to the PostgreSQL epoch.
pub const PG_EPOCH_MICROS: i64 = 946_728_000_000_000;

/// Earliest Unix microsecond count inside the protobuf domain.
pub const MIN_UNIX_MICROS: i64 = -62_135_596_800_000_000;

/// Latest Unix microsecond count inside the protobuf domain.
pub const MAX_UNIX_MICROS: i64 = 253_402_300_799_999_999;

/// Microseconds since the Unix epoch, dropping sub-microsecond precision toward zero.
pub open spec fn unix_micros(t: Timestamp) -> int {
    t.seconds * 1_000_000 + trunc_div(t.nanos as int, 1000)
}

/// The PostgreSQL payload for `t`.
pub open spec fn sql_micros(t: Timestamp) -> int {
    unix_micros(t) - PG_EPOCH_MICROS
}

/// Whether the payload for `t` fits the 64-bit PostgreSQL value.
pub open spec fn sql_encodable(t: Timestamp) -> bool {
    i64::MIN <= sql_micros(t) <= i64::MAX
}

/// Whether a PostgreSQL payload lies inside the protobuf domain.
pub open spec fn sql_decodable(micros: int) -> bool {
    MIN_UNIX_MICROS <= micros + PG_EPOCH_MICROS <= MAX_UNIX_MICROS
}

/// The timestamp of a decodable payload: floored whole seconds and the
/// non-negative sub-second remainder in nanoseconds.
pub open spec fn timestamp_of_sql(micros: int) -> Timestamp {
    let m = micros + PG_EPOCH_MICROS;
    Timestamp { seconds: (m / 1_000_000) as i64, nanos: ((m % 1_000_000) * 1000) as i32 }
}

/// The PostgreSQL payload for `t`, computed without overflow.
fn wide_sql_micros(t: &Timestamp) -> (r: i128)
    ensures
        r == sql_micros(*t),
{
    let sub: i32 = if t.nanos >= 0 {
        t.nanos / 1000
    } else {
        -((-(t.nanos as i64)) / 1000) as i32
    };
    (t.seconds as i128) * 1_000_000i128 + (sub as i128) - PG_EPOCH_MICROS as i128
}

/// Whether `t` can be encoded, that is whether `to_sql` accepts it.
pub fn sql_fits(t: &Timestamp) -> (r: bool)
    ensures
        r == sql_encodable(*t),
{
    let m = wide_sql_micros(t);
    i64::MIN as i128 <= m && m <= i64::MAX as i128
}

impl Timestamp {
    /// Encodes the timestamp as a PostgreSQL microsecond offset.
    pub fn to_sql(&self) -> (r: i64)
        requires
            sql_encodable(*self),
        ensures
            r == sql_micros(*self),
    {
        wide_sql_micros(self) as i64
    }

    /// Decodes a PostgreSQL microsecond offset; fails where it falls outside
    /// the protobuf domain.
    pub fn from_sql(micros: i64) -> (r: Result<Timestamp, TimeError>)
        ensures
            r is Ok <==> sql_decodable(micros as int),
            r is Ok ==> r->Ok_0 == timestamp_of_sql(micros as int),
            r is Ok ==> r->Ok_0.in_domain(),
            r is Err ==> r->Err_0 == (TimeError::OffsetOutOfRange { micros }),
    {
        let m: i128 = micros as i128 + PG_EPOCH_MICROS as i128;
        if m < MIN_UNIX_MICROS as i128 || m > MAX_UNIX_MICROS as i128 {
            return Err(TimeError::OffsetOutOfRange { micros });
        }
        let (q, rem) = floor_div_rem(m, 1_000_000);
        assert(MIN_SECONDS <= q <= MAX_SECONDS);
        Ok(Timestamp { seconds: q as i64, nanos: (rem * 1000) as i32 })
    }
}

/// Microsecond-aligned timestamps in the protobuf domain survive a trip
/// through the PostgreSQL encoding unchanged.
pub proof fn lemma_sql_round_trip(t: Timestamp)
    requires
        t.in_domain(),
        t.nanos % 1000 == 0,
    ensures
        sql_encodable(t),
        sql_decodable(sql_micros(t)),
        timestamp_of_sql(sql_micros(t)) == t,
{
    let u = t.nanos / 1000;
    assert(trunc_div(t.nanos as int, 1000) == u);
    let m = unix_micros(t);
    assert(0 <= u < 1_000_000);
    lemma_fundamental_div_mod_converse(m, 1_000_000, t.seconds as int, u);
}

} // verus!
