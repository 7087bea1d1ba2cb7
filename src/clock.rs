//! Wall-clock time and its text form, through chrono. Timestamps are
//! milliseconds since the Unix epoch, UTC.
use vstd::prelude::*;

verus! {

/// The RFC 3339 text that chrono renders for a UTC instant given in
/// milliseconds since the Unix epoch.
pub uninterp spec fn rfc3339_text(millis: i64) -> Seq<char>;

/// Instants from 1970-01-01 through 9999-12-31, UTC, in milliseconds.
pub open spec fn millis_in_range(millis: i64) -> bool {
    0 <= millis <= 253402300799999
}

/// Relies on chrono's `From<SystemTime> for DateTime<Utc>` (which, unlike
/// `Utc::now`, also accepts a clock set before 1970) and on
/// `DateTime::timestamp_millis`: the current time. Nothing is promised of the
/// value, which depends on the system clock.
#[verifier::external_body]
pub(crate) fn now_millis() -> (r: i64) {
    chrono::DateTime::<chrono::Utc>::from(std::time::SystemTime::now()).timestamp_millis()
}

/// Relies on `chrono::DateTime::<Utc>::from_timestamp_millis`, which yields
/// `None` only outside chrono's range (far wider than years 1970 to 9999),
/// and on `DateTime::to_rfc3339` for the text.
#[verifier::external_body]
pub(crate) fn rfc3339_of_millis(millis: i64) -> (r: Option<String>)
    ensures
        r matches Some(s) ==> s@ == rfc3339_text(millis),
        millis_in_range(millis) ==> r is Some,
{
    match chrono::DateTime::<chrono::Utc>::from_timestamp_millis(millis) {
        Some(d) => Some(d.to_rfc3339()),
        None => None,
    }
}

} // verus!
