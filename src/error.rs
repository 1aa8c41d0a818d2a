//! Errors of the conversions and codecs.

use vstd::prelude::*;

verus! {

/// Why a conversion or a codec refused its input.
#[derive(Debug, Clone, PartialEq, Eq)]
pub enum TimeError {
    /// The instant `seconds` / `nanos` lies outside the range the target can hold.
    InstantOutOfRange { seconds: i64, nanos: i32 },
    /// A PostgreSQL microsecond offset maps outside the protobuf `Timestamp` range.
    OffsetOutOfRange { micros: i64 },
    /// A signed nanosecond interval whose whole seconds do not fit a `Duration`.
    IntervalOutOfRange { total_nanos: i128 },
    /// `input` is not an RFC 3339 date-time with an explicit offset.
    Parse { input: String, reason: String },
}

impl TimeError {
    /// A short human-readable description of the error.
    pub fn message(&self) -> (r: String)
        ensures
            self is Parse ==> r@ == self->Parse_reason@,
    {
        match self {
            TimeError::InstantOutOfRange { .. } => "instant outside the supported range".to_owned(),
            TimeError::OffsetOutOfRange { .. } => "value outside protobuf Timestamp range".to_owned(),
            TimeError::IntervalOutOfRange { .. } => "interval outside Duration range".to_owned(),
            TimeError::Parse { reason, .. } => reason.clone(),
        }
    }
}

} // verus!
