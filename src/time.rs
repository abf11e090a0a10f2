use vstd::prelude::*;

verus! {

/// The UTC time `secs` seconds after the Unix epoch, written
/// `YYYY-MM-DD HH:MM:SS`, as chrono formats it.
pub uninterp spec fn utc_text(secs: int) -> Seq<char>;

/// Relies on chrono's `DateTime::<Utc>::from_timestamp` (`None` outside the
/// calendar range it can represent) and on `format` with
/// `%Y-%m-%d %H:%M:%S`, which depends on the timestamp alone.
#[verifier::external_body]
pub(crate) fn format_utc(secs: i64) -> (r: Option<String>)
    ensures
        r matches Some(s) ==> s@ == utc_text(secs as int),
{
    match chrono::DateTime::<chrono::Utc>::from_timestamp(secs, 0) {
        Some(d) => Some(d.format("%Y-%m-%d %H:%M:%S").to_string()),
        None => None,
    }
}

/// The seconds since the Unix epoch of a UTC time written
/// `YYYY-MM-DD HH:MM:SS`, as chrono reads it; `None` where it does not parse.
pub uninterp spec fn utc_parsed(text: Seq<char>) -> Option<i64>;

/// Relies on chrono's `NaiveDateTime::parse_from_str` with
/// `%Y-%m-%d %H:%M:%S`, `and_utc` and `timestamp`, whose result depends on
/// the text alone.
#[verifier::external_body]
pub(crate) fn parse_utc(text: &str) -> (r: Option<i64>)
    ensures
        r == utc_parsed(text@),
{
    match chrono::NaiveDateTime::parse_from_str(text, "%Y-%m-%d %H:%M:%S") {
        Ok(t) => Some(t.and_utc().timestamp()),
        Err(_) => None,
    }
}

} // verus!
