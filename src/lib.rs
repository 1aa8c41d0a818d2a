//! Protobuf well-known time values (`Timestamp`, `Duration`): canonical
//! normalization, a bridge to UTC calendar instants and signed intervals,
//! an RFC 3339 text codec and the PostgreSQL binary timestamp codec.

pub mod arith;
pub mod calendar;
pub mod duration;
pub mod error;
pub mod sql;
pub mod text;
pub mod timestamp;

