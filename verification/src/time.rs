use vstd::prelude::*;

verus! {

/// The instant an RFC 3339 date stands for, in milliseconds since the Unix
/// epoch, as `chrono` reads it; `None` when the text is not such a date.
pub uninterp spec fn rfc3339_millis(text: Seq<char>) -> Option<i64>;

/// Calls `chrono::DateTime::parse_from_rfc3339` and, on success,
/// `timestamp_millis`. The contract claims only that the result depends on the
/// text alone.
#[verifier::external_body]
pub(crate) fn parse_rfc3339_millis(text: &str) -> (r: Option<i64>)
    ensures
        r == rfc3339_millis(text@),
{
    chrono::DateTime::parse_from_rfc3339(text).ok().map(|d| d.timestamp_millis())
}

} // verus!

verus! {

/// The date and time `secs` seconds after the Unix epoch (taken in UTC),
/// written as `%Y-%m-%d %H:%M:%S` by `chrono`; `None` beyond chrono's range.
pub uninterp spec fn datetime_text(secs: i64) -> Option<Seq<char>>;

/// Calls `chrono::DateTime::from_timestamp(secs, 0)` and formats its naive
/// UTC date and time with `%Y-%m-%d %H:%M:%S`. The contract claims only that
/// the text depends on `secs` alone.
#[verifier::external_body]
pub(crate) fn format_datetime(secs: i64) -> (r: Option<String>)
    ensures
        match r {
            Some(t) => datetime_text(secs) == Some(t@),
            None => datetime_text(secs) is None,
        },
{
    chrono::DateTime::from_timestamp(secs, 0).map(|d| d.naive_utc().format("%Y-%m-%d %H:%M:%S").to_string())
}

} // verus!
