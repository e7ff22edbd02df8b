//! Freshness extraction for RSS/Atom sources.
//!
//! The feed parser, like the HTTP fetch, is an external collaborator: the
//! transport layer outside the library fetches a source's check endpoint and
//! extracts the first entry's published-date string from the feed document.
//! Everything after that string arrives is decided here: it is parsed as a
//! naive (zone-less) local date-time under the source's own format pattern,
//! interpreted at the source's fixed UTC offset, and converted to the
//! canonical UTC timestamp.

use vstd::prelude::*;

use crate::check::CheckError;
use crate::model::Timestamp;

verus! {

/// The seconds since the Unix epoch of the naive (zone-less) date-time that
/// `s` denotes under the chrono format pattern `fmt`; `None` where the string
/// does not match the pattern. A function of the two strings alone.
pub uninterp spec fn naive_seconds_of(s: Seq<char>, fmt: Seq<char>) -> Option<int>;

/// Relies on `chrono::NaiveDateTime::parse_from_str`, with
/// `NaiveDateTime::and_utc` and `DateTime::timestamp` to read the parsed
/// value as epoch seconds; the result depends on the two strings alone.
#[verifier::external_body]
fn parse_naive_seconds(s: &str, fmt: &str) -> (r: Option<i64>)
    ensures
        r is Some ==> naive_seconds_of(s@, fmt@) == Some(r.unwrap() as int),
        r is None ==> naive_seconds_of(s@, fmt@) is None,
{
    chrono::NaiveDateTime::parse_from_str(s, fmt).ok().map(|d| d.and_utc().timestamp())
}

/// Canonical UTC timestamp that a published-date string yields under a
/// format pattern and a fixed offset, or `None` where any step fails. The
/// offset step subtracts: a clock `offset` seconds east of UTC shows local
/// time `offset` seconds ahead of UTC.
pub open spec fn extracted_utc(published: Seq<char>, fmt: Seq<char>, offset: int) -> Option<int> {
    match naive_seconds_of(published, fmt) {
        None => None,
        Some(n) => if i64::MIN <= n - offset <= i64::MAX {
            Some(n - offset)
        } else {
            None
        },
    }
}

/// Interprets a naive local reading as sitting at a fixed offset east of UTC
/// and converts it to UTC: `utc = naive - offset`. Two sources with identical
/// feed content but different configured offsets yield different canonical
/// timestamps, by design.
pub fn to_utc_seconds(naive: i64, offset: i32) -> (r: Result<Timestamp, CheckError>)
    ensures
        match r {
            Ok(t) => t@ == naive - offset && i64::MIN <= naive - offset <= i64::MAX,
            Err(e) => e == CheckError::Format && !(i64::MIN <= naive - offset <= i64::MAX),
        },
{
    match naive.checked_sub(offset as i64) {
        Some(utc) => Ok(Timestamp::new(utc)),
        None => Err(CheckError::Format),
    }
}

/// The most recent publication timestamp of a source, normalized to UTC,
/// from the published-date string its feed carries. A pattern mismatch is a
/// format error; transport and feed-parse failures never reach this
/// function.
pub fn get_last_update_date(published: &str, datetime_format: &str, offset: i32) -> (r: Result<
    Timestamp,
    CheckError,
>)
    ensures
        match r {
            Ok(t) => extracted_utc(published@, datetime_format@, offset as int) == Some(t@),
            Err(e) => e == CheckError::Format && extracted_utc(
                published@,
                datetime_format@,
                offset as int,
            ) is None,
        },
{
    let naive = match parse_naive_seconds(published, datetime_format) {
        Some(n) => n,
        None => {
            return Err(CheckError::Format);
        },
    };
    to_utc_seconds(naive, offset)
}

} // verus!
