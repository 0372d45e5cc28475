use crate::error::{ErrorKind, RobinhoodError};
use vstd::prelude::*;

verus! {

#[verifier::external_type_specification]
#[verifier::external_body]
pub struct ExParseError(chrono::ParseError);

/// An instant with the UTC offset it was written in.
#[derive(Clone, Copy, Debug, PartialEq, Eq, Structural)]
pub struct Timestamp {
    /// Whole seconds since 1970-01-01T00:00:00Z.
    pub seconds: i64,
    /// Nanoseconds past `seconds`.
    pub nanos: u32,
    /// Offset from UTC, in seconds east.
    pub offset_seconds: i32,
}

/// What chrono reads from an RFC 3339 text, if it accepts it.
pub uninterp spec fn rfc3339_instant(text: Seq<char>) -> Option<Timestamp>;

/// The RFC 3339 text that chrono writes for a timestamp, if it can.
pub uninterp spec fn rfc3339_text(t: Timestamp) -> Option<Seq<char>>;

/// Relies on chrono's `DateTime::parse_from_rfc3339`, read back through
/// `timestamp`, `timestamp_subsec_nanos` and `FixedOffset::local_minus_utc`.
#[verifier::external_body]
fn parse_rfc3339_text(text: &str) -> (r: Result<Timestamp, chrono::ParseError>)
    ensures
        r is Ok <==> rfc3339_instant(text@) is Some,
        r is Ok ==> rfc3339_instant(text@) == Some(r->Ok_0),
{
    chrono::DateTime::parse_from_rfc3339(text).map(|d| Timestamp {
        seconds: d.timestamp(),
        nanos: d.timestamp_subsec_nanos(),
        offset_seconds: d.offset().local_minus_utc(),
    })
}

/// Relies on chrono's `FixedOffset::east_opt`, `DateTime::from_timestamp`,
/// `NaiveDateTime::checked_add_offset` (the local time must stay in chrono's
/// range, which `to_rfc3339_opts` otherwise expects) and `to_rfc3339_opts`
/// (fractional seconds as needed, `Z` for UTC).
#[verifier::external_body]
fn write_rfc3339_text(t: Timestamp) -> (r: Option<String>)
    ensures
        r is Some <==> rfc3339_text(t) is Some,
        r is Some ==> rfc3339_text(t) == Some(r->Some_0@),
{
    let offset = chrono::FixedOffset::east_opt(t.offset_seconds)?;
    let instant = chrono::DateTime::from_timestamp(t.seconds, t.nanos)?;
    instant.naive_utc().checked_add_offset(offset)?;
    Some(instant.with_timezone(&offset).to_rfc3339_opts(chrono::SecondsFormat::AutoSi, true))
}

impl Timestamp {
    /// Reads an RFC 3339 timestamp with its offset.
    pub fn parse_rfc3339(text: &str) -> (r: Result<Timestamp, RobinhoodError>)
        ensures
            r is Ok <==> rfc3339_instant(text@) is Some,
            r is Ok ==> rfc3339_instant(text@) == Some(r->Ok_0),
            r is Err ==> r->Err_0.kind() == ErrorKind::Deserialization && r->Err_0.is_marked(),
    {
        match parse_rfc3339_text(text) {
            Ok(t) => Ok(t),
            Err(_) => Err(RobinhoodError::with_kind(ErrorKind::Deserialization, "invalid timestamp")),
        }
    }

    /// Writes the timestamp in RFC 3339 form, if chrono can represent it.
    pub fn to_rfc3339(&self) -> (r: Option<String>)
        ensures
            r is Some <==> rfc3339_text(*self) is Some,
            r is Some ==> rfc3339_text(*self) == Some(r->Some_0@),
    {
        write_rfc3339_text(*self)
    }
}

} // verus!
