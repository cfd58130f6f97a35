use vstd::prelude::*;
use time::format_description::well_known::Rfc3339;
use time::OffsetDateTime;

verus! {

/// An instant, as nanoseconds since the Unix epoch (UTC).
#[derive(Clone, Copy, Debug, PartialEq, Eq, Structural)]
pub struct Timestamp {
    pub unix_nanos: i128,
}

/// The instant that an RFC 3339 text denotes, if it is one.
pub uninterp spec fn rfc3339_instant(text: Seq<char>) -> Option<Timestamp>;

/// The RFC 3339 text of an instant, if it can be written in that format.
pub uninterp spec fn rfc3339_text(t: Timestamp) -> Option<Seq<char>>;

/// Relies on time's `OffsetDateTime::parse` with `Rfc3339`: the result
/// depends on the text alone; read back as Unix nanoseconds.
#[verifier::external_body]
pub(crate) fn parse_rfc3339(text: &str) -> (r: Option<Timestamp>)
    ensures
        r == rfc3339_instant(text@),
{
    match OffsetDateTime::parse(text, &Rfc3339) {
        Ok(t) => Some(Timestamp { unix_nanos: t.unix_timestamp_nanos() }),
        Err(_) => None,
    }
}

/// Relies on time's `OffsetDateTime::format` with `Rfc3339`, applied to the
/// instant rebuilt by `OffsetDateTime::from_unix_timestamp_nanos`.
#[verifier::external_body]
pub(crate) fn format_rfc3339(t: Timestamp) -> (r: Option<String>)
    ensures
        match r {
            Some(s) => rfc3339_text(t) == Some(s@),
            None => rfc3339_text(t) is None,
        },
{
    match OffsetDateTime::from_unix_timestamp_nanos(t.unix_nanos) {
        Ok(d) => d.format(&Rfc3339).ok(),
        Err(_) => None,
    }
}

/// Relies on time's `OffsetDateTime::now_utc`: the current wall-clock time.
#[verifier::external_body]
pub(crate) fn now_utc() -> Timestamp {
    Timestamp { unix_nanos: OffsetDateTime::now_utc().unix_timestamp_nanos() }
}

/// Reads an RFC 3339 timestamp, ignoring surrounding white space.
pub fn parse_timestamp(text: &str) -> (r: Option<Timestamp>)
    ensures
        r == rfc3339_instant(crate::text::trimmed(text@)),
{
    let t = crate::text::trim(text);
    parse_rfc3339(t.as_str())
}

} // verus!
