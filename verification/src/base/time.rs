//! Clock readings and RFC 3339 timestamps.

use vstd::prelude::*;

verus! {

/// What parsing `s` as an RFC 3339 timestamp gives: the instant as seconds
/// since the epoch and sub-second nanoseconds, or the parse error text.
pub uninterp spec fn rfc3339_outcome(s: Seq<char>) -> Result<(int, int), Seq<char>>;

/// Calls `chrono::DateTime::parse_from_rfc3339` and reads the instant's
/// seconds and nanoseconds; the outcome is named `rfc3339_outcome` of the
/// input.
#[verifier::external_body]
pub(crate) fn parse_rfc3339(s: &str) -> (r: Result<(i64, u32), String>)
    ensures
        r is Ok <==> rfc3339_outcome(s@) is Ok,
        r is Ok ==> rfc3339_outcome(s@)->Ok_0 == (r->Ok_0.0 as int, r->Ok_0.1 as int),
        r is Err ==> rfc3339_outcome(s@)->Err_0 == r->Err_0@,
{
    chrono::DateTime::parse_from_rfc3339(s)
        .map(|t| (t.timestamp(), t.timestamp_subsec_nanos()))
        .map_err(|e| e.to_string())
}

/// Calls `chrono::Utc::now` and reads its seconds and nanoseconds. Which
/// instant it is, is the clock's. `Utc::now` reads the system time since
/// the epoch (it panics on a clock set before 1970) and builds the date with
/// `from_timestamp(..).unwrap()`, so the reading is a representable instant
/// with a sub-second part below one second.
#[verifier::external_body]
pub(crate) fn now_instant() -> (r: (i64, u32))
    ensures
        0 <= r.0 <= MAX_TIMESTAMP_SECS,
        r.1 < 1_000_000_000,
{
    let t = chrono::Utc::now();
    (t.timestamp(), t.timestamp_subsec_nanos())
}

/// `s` is the RFC 3339 text of some instant.
pub open spec fn is_instant_text(s: Seq<char>) -> bool {
    exists|t: (int, int)| rfc3339_text_of(t.0, t.1) == Some(s)
}

/// The RFC 3339 text of the current instant.
pub fn now_rfc3339() -> (r: String)
    ensures
        is_instant_text(r@),
{
    let now = now_instant();
    match format_rfc3339(now.0, now.1) {
        Some(s) => {
            assert(rfc3339_text_of(now.0 as int, now.1 as int) == Some(s@));
            s
        },
        None => {
            assert(false);
            String::new()
        },
    }
}

/// The earliest and latest whole seconds since the epoch that the date type
/// represents: the start of January 1, 262143 BCE (year -262143) and the
/// last second of December 31, 262142 CE.
pub const MIN_TIMESTAMP_SECS: i64 = -8_334_601_315_200;
pub const MAX_TIMESTAMP_SECS: i64 = 8_210_266_876_799;

/// The earliest and latest whole seconds since the epoch whose year has
/// four digits (0000 to 9999): the start of 0000-01-01 and the last second
/// of 9999-12-31. RFC 3339 text of these instants reads back unchanged.
pub const RFC3339_MIN_SECS: i64 = -62_167_219_200;
pub const RFC3339_MAX_SECS: i64 = 253_402_300_799;

/// The RFC 3339 text (in UTC) of the instant `secs` seconds and `nanos`
/// nanoseconds after the epoch, when that instant is representable.
pub uninterp spec fn rfc3339_text_of(secs: int, nanos: int) -> Option<Seq<char>>;

/// Calls `chrono::DateTime::from_timestamp` and formats the instant with
/// `to_rfc3339`; the outcome is named `rfc3339_text_of` of the instant.
/// `from_timestamp` gives an instant for every second count within the
/// representable years and every nanosecond count below one second. For a
/// four-digit year the text is `YYYY-MM-DDTHH:MM:SS`, the nonzero fraction
/// of a second, and `+00:00`, which `parse_from_rfc3339` reads back as the
/// same instant.
#[verifier::external_body]
pub(crate) fn format_rfc3339(secs: i64, nanos: u32) -> (r: Option<String>)
    ensures
        match r {
            Some(s) => {
                &&& rfc3339_text_of(secs as int, nanos as int) == Some(s@)
                &&& RFC3339_MIN_SECS <= secs <= RFC3339_MAX_SECS && nanos < 1_000_000_000
                    ==> rfc3339_outcome(s@) == Ok::<(int, int), Seq<char>>((secs as int, nanos as int))
            },
            None => rfc3339_text_of(secs as int, nanos as int) is None,
        },
        MIN_TIMESTAMP_SECS <= secs <= MAX_TIMESTAMP_SECS && nanos < 1_000_000_000 ==> r is Some,
{
    chrono::DateTime::from_timestamp(secs, nanos).map(|t| t.to_rfc3339())
}

} // verus!
