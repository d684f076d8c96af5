use vstd::prelude::*;

verus! {

/// The RFC 3339 text of the instant `millis` milliseconds after the Unix epoch, in the
/// Europe/Paris time zone.
pub uninterp spec fn paris_rfc3339_of(millis: int) -> Seq<char>;

/// The last millisecond that chrono can represent: the end of year 262142.
pub const MAX_MILLIS: i64 = 8_210_266_876_799_999;

/// Relies on `chrono::Utc::now` and `DateTime::timestamp_millis`: the current time, in
/// milliseconds since the Unix epoch. `Utc::now` fails on a clock before the epoch and
/// unwraps a representable time, so the value lies between the epoch and `MAX_MILLIS`.
#[verifier::external_body]
pub(crate) fn now_millis() -> (r: i64)
    ensures
        0 <= r <= MAX_MILLIS,
{
    chrono::Utc::now().timestamp_millis()
}

/// Relies on `chrono::DateTime::from_timestamp_millis` (`None` only out of chrono's range),
/// then `with_timezone` on `chrono_tz::Europe::Paris` and `to_rfc3339`: the text depends on the
/// instant alone.
#[verifier::external_body]
pub(crate) fn paris_rfc3339(millis: i64) -> (r: Option<String>)
    ensures
        0 <= millis <= MAX_MILLIS ==> r is Some,
        r matches Some(s) ==> s@ == paris_rfc3339_of(millis as int),
{
    match chrono::DateTime::from_timestamp_millis(millis) {
        Some(d) => Some(d.with_timezone(&chrono_tz::Europe::Paris).to_rfc3339()),
        None => None,
    }
}

} // verus!
