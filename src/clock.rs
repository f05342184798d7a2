//! Wall-clock time and its text form, from the calendar library.
use vstd::prelude::*;
use crate::model::{valid_timestamp, Timestamp};

verus! {

/// The RFC 3339 text of the instant `t` (milliseconds since the epoch, UTC):
/// fractional seconds only when not zero, and `Z` for the offset.
pub uninterp spec fn rfc3339_text(t: i64) -> Seq<char>;

/// Relies on `chrono::Utc::now` and `DateTime::timestamp_millis`: the current
/// time as milliseconds since the epoch. `Utc::now` fails on a clock set
/// before the epoch, and every `DateTime<Utc>` lies at or before the last
/// millisecond of year 262142.
#[verifier::external_body]
pub(crate) fn current_time() -> (t: Timestamp)
    ensures
        valid_timestamp(t),
{
    chrono::Utc::now().timestamp_millis()
}

/// Relies on `chrono::DateTime::<Utc>::from_timestamp_millis`, which accepts
/// every instant from the epoch to the end of year 262142, and
/// `DateTime::to_rfc3339_opts(SecondsFormat::AutoSi, true)`, the text form
/// chrono's serializer writes.
#[verifier::external_body]
pub(crate) fn timestamp_text(t: Timestamp) -> (r: String)
    requires
        valid_timestamp(t),
    ensures
        r@ == rfc3339_text(t),
{
    let dt = chrono::DateTime::<chrono::Utc>::from_timestamp_millis(t).unwrap();
    dt.to_rfc3339_opts(chrono::SecondsFormat::AutoSi, true)
}

} // verus!
