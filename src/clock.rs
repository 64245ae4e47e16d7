//! What the library takes from chrono, uuid and std's text functions: each
//! call stands behind one small function whose contract states what the
//! outside code provides.
use vstd::prelude::*;

verus! {

/// The RFC 3339 text chrono writes for a UTC instant (seconds since the Unix
/// epoch, nanoseconds past that second), or `None` where chrono cannot
/// represent the instant.
pub uninterp spec fn rfc3339_of(secs: i64, nanos: u32) -> Option<Seq<char>>;

/// The instant (seconds since the Unix epoch, nanoseconds past that second)
/// that chrono reads from RFC 3339 text, or `None` where it rejects the text.
pub uninterp spec fn parsed_rfc3339(s: Seq<char>) -> Option<(i64, u32)>;

/// The lowercase form of a string, as std computes it.
pub uninterp spec fn lower_of(s: Seq<char>) -> Seq<char>;

/// Whether std classes a character as alphabetic or numeric.
pub uninterp spec fn alphanumeric_of(c: char) -> bool;

/// Relies on chrono's `DateTime::from_timestamp` (`None` out of range) and
/// `DateTime::to_rfc3339`.
#[verifier::external_body]
pub(crate) fn format_rfc3339(secs: i64, nanos: u32) -> (r: Option<String>)
    ensures
        match r {
            Some(s) => rfc3339_of(secs, nanos) == Some(s@),
            None => rfc3339_of(secs, nanos) is None,
        },
{
    match chrono::DateTime::from_timestamp(secs, nanos) {
        Some(d) => Some(d.to_rfc3339()),
        None => None,
    }
}

/// Relies on chrono's `DateTime::parse_from_rfc3339`, read back as
/// `timestamp` and `timestamp_subsec_nanos`.
#[verifier::external_body]
pub(crate) fn parse_rfc3339(s: &str) -> (r: Option<(i64, u32)>)
    ensures
        r == parsed_rfc3339(s@),
{
    match chrono::DateTime::parse_from_rfc3339(s) {
        Ok(d) => Some((d.timestamp(), d.timestamp_subsec_nanos())),
        Err(_) => None,
    }
}

/// Relies on chrono's `Utc::now`: the current instant as seconds since the
/// Unix epoch and nanoseconds past that second (over 999,999,999 only within
/// a leap second).
#[verifier::external_body]
pub(crate) fn now() -> (r: (i64, u32))
    ensures
        r.1 < 2_000_000_000,
{
    let d = chrono::Utc::now();
    (d.timestamp(), d.timestamp_subsec_nanos())
}

/// Relies on chrono's `Utc::now` and `format("%Y%m%d_%H%M%S")`: the current
/// time as a compact stamp.
#[verifier::external_body]
pub(crate) fn now_compact_stamp() -> (r: String) {
    chrono::Utc::now().format("%Y%m%d_%H%M%S").to_string()
}

/// Relies on uuid's `Uuid::new_v4` and its hyphenated `Display` form, which
/// is 36 characters long.
#[verifier::external_body]
pub(crate) fn fresh_id() -> (r: String)
    ensures
        r@.len() == 36,
{
    uuid::Uuid::new_v4().to_string()
}

/// Relies on `str::to_lowercase`.
#[verifier::external_body]
pub(crate) fn lowercase(s: &str) -> (r: String)
    ensures
        r@ == lower_of(s@),
{
    s.to_lowercase()
}

/// Relies on `char::is_alphanumeric`.
#[verifier::external_body]
pub(crate) fn is_alphanumeric(c: char) -> (r: bool)
    ensures
        r == alphanumeric_of(c),
{
    c.is_alphanumeric()
}

} // verus!
