//! The time of day.

use chrono::SecondsFormat;
use chrono::Utc;
use vstd::prelude::*;

verus! {

/// A moment in time, held in the two forms the replies show it in.
#[derive(Clone, Debug, PartialEq, Eq)]
pub struct Timestamp {
    /// Milliseconds since the start of 1970, UTC.
    pub epoch_millis: i64,
    /// The same moment as an RFC 3339 date and time with milliseconds, in UTC.
    pub rfc3339: String,
}

/// The current moment.
///
/// Calls `Utc::now` of `chrono` and reads the result in both forms, with
/// `DateTime::timestamp_millis` and `DateTime::to_rfc3339_opts`. The result
/// depends on the clock, so nothing is stated of it. The call panics where
/// the clock stands before 1970.
#[verifier::external_body]
pub(crate) fn now() -> Timestamp {
    let moment = Utc::now();
    Timestamp {
        epoch_millis: moment.timestamp_millis(),
        rfc3339: moment.to_rfc3339_opts(SecondsFormat::Millis, true),
    }
}

} // verus!
