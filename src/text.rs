//! RFC 3339 text for `Timestamp`, printed and parsed by chrono.

use crate::arith::floor_div_rem;
use crate::calendar::in_calendar;
use crate::error::TimeError;
use crate::timestamp::{Timestamp, MAX_SECONDS, MIN_SECONDS, NANOS_PER_SECOND};
use vstd::prelude::*;

verus! {

/// The RFC 3339 text that chrono prints for the UTC instant `seconds` + `nanos`.
pub uninterp spec fn rfc3339_text(seconds: int, nanos: int) -> Seq<char>;

/// The epoch seconds and sub-second nanoseconds that chrono reads from a
/// date-time text, or `None` where it rejects the text.
pub uninterp spec fn rfc3339_parsed(text: Seq<char>) -> Option<(int, int)>;

/// Relies on the `Debug` rendering of chrono's `DateTime<Utc>` (built with
/// `DateTime::from_timestamp`, which accepts these arguments): the text
/// depends on the instant alone.
#[verifier::external_body]
fn chrono_format(seconds: i64, nanos: u32) -> (r: String)
    requires
        in_calendar(seconds as int),
        nanos < NANOS_PER_SECOND,
    ensures
        r@ == rfc3339_text(seconds as int, nanos as int),
{
    match chrono::DateTime::<chrono::Utc>::from_timestamp(seconds, nanos) {
        Some(dt) => format!("{dt:?}"),
        None => String::new(),
    }
}

/// Relies on chrono's `FromStr` for `DateTime<Utc>` (an RFC 3339 date-time with
/// an explicit offset, converted to UTC), then `timestamp` and
/// `timestamp_subsec_nanos`; the latter exceeds 999,999,999 only for a leap
/// second and stays below two seconds. The error is chrono's `Debug` text.
#[verifier::external_body]
fn chrono_parse(text: &str) -> (r: Result<(i64, u32), String>)
    ensures
        r is Ok <==> rfc3339_parsed(text@) is Some,
        r is Ok ==> rfc3339_parsed(text@) == Some((r->Ok_0.0 as int, r->Ok_0.1 as int)),
        r is Ok ==> r->Ok_0.1 < 2 * NANOS_PER_SECOND,
{
    match text.parse::<chrono::DateTime<chrono::Utc>>() {
        Ok(dt) => Ok((dt.timestamp(), dt.timestamp_subsec_nanos())),
        Err(e) => Err(format!("{e:?}")),
    }
}

/// The canonical timestamp of `seconds` + `nanos` where it lies in the protobuf domain.
pub open spec fn timestamp_in_domain(seconds: int, nanos: int) -> Option<Timestamp> {
    let t = seconds * NANOS_PER_SECOND + nanos;
    let s = t / (NANOS_PER_SECOND as int);
    if MIN_SECONDS <= s <= MAX_SECONDS {
        Some(Timestamp { seconds: s as i64, nanos: (t % (NANOS_PER_SECOND as int)) as i32 })
    } else {
        None
    }
}

impl Timestamp {
    /// RFC 3339 text of the normalized timestamp, in UTC with a `Z` suffix;
    /// fails where the instant is off the UTC calendar.
    pub fn serialize(&self) -> (r: Result<String, TimeError>)
        ensures
            r is Ok <==> in_calendar(self.normalized().seconds as int),
            r is Ok ==> r->Ok_0@ == rfc3339_text(
                self.normalized().seconds as int,
                self.normalized().nanos as int,
            ),
            r is Err ==> r->Err_0 == (TimeError::InstantOutOfRange {
                seconds: self.normalized().seconds,
                nanos: self.normalized().nanos,
            }),
    {
        let dt = self.to_datetime()?;
        Ok(chrono_format(dt.timestamp(), dt.timestamp_subsec_nanos()))
    }

    /// The canonical timestamp of a parsed instant (`seconds` + `nanos`,
    /// where `nanos` may reach past one second); `None` outside the protobuf domain.
    pub fn from_parsed(seconds: i64, nanos: u32) -> (r: Option<Timestamp>)
        ensures
            r == timestamp_in_domain(seconds as int, nanos as int),
            r is Some ==> r->Some_0.in_domain(),
            nanos < 2 * NANOS_PER_SECOND && r is Some ==> r->Some_0 == (Timestamp {
                seconds,
                nanos: nanos as i32,
            }).normalized(),
    {
        let total: i128 = (seconds as i128) * 1_000_000_000i128 + (nanos as i128);
        let (q, rem) = floor_div_rem(total, NANOS_PER_SECOND as u64);
        if q < MIN_SECONDS as i128 || q > MAX_SECONDS as i128 {
            None
        } else {
            Some(Timestamp { seconds: q as i64, nanos: rem as i32 })
        }
    }

    /// Parses an RFC 3339 date-time with an explicit offset into a canonical
    /// timestamp; fails on text chrono rejects and on instants outside the
    /// protobuf domain, naming the text.
    pub fn deserialize(text: &str) -> (r: Result<Timestamp, TimeError>)
        ensures
            rfc3339_parsed(text@) is None ==> r is Err,
            rfc3339_parsed(text@) is Some ==> {
                let p = rfc3339_parsed(text@)->Some_0;
                match timestamp_in_domain(p.0, p.1) {
                    Some(t) => r == Ok::<Timestamp, TimeError>(t),
                    None => r is Err,
                }
            },
            r is Ok ==> r->Ok_0.in_domain(),
            r is Err ==> r->Err_0 is Parse && r->Err_0->Parse_input@ == text@,
    {
        match chrono_parse(text) {
            Err(reason) => Err(TimeError::Parse { input: text.to_owned(), reason }),
            Ok((seconds, nanos)) => match Timestamp::from_parsed(seconds, nanos) {
                Some(t) => Ok(t),
                None => Err(
                    TimeError::Parse {
                        input: text.to_owned(),
                        reason: "outside the protobuf Timestamp range".to_owned(),
                    },
                ),
            },
        }
    }
}

} // verus!
