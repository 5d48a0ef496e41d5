use vstd::prelude::*;

verus! {

/// An instant in UTC: whole seconds since the Unix epoch and the
/// nanoseconds past that second.
#[derive(Clone, Copy, Debug, PartialEq, Eq, Structural)]
pub struct DateTime {
    pub secs: i64,
    pub nanos: u32,
}

/// Why a conversion failed.
#[derive(Clone, Copy, Debug, PartialEq, Eq, Structural)]
pub enum ConvError {
    /// A date-time field holds text that is not an RFC 3339 date-time.
    InvalidDate,
    /// A date-time lies outside the range that can be written.
    DateOutOfRange,
}

/// The RFC 3339 text, at second precision with a `Z` designator, of the
/// instant given by seconds and nanoseconds; `None` where there is no such
/// instant.
pub uninterp spec fn rfc3339_text(secs: i64, nanos: u32) -> Option<Seq<char>>;

/// The instant, as UTC seconds and nanoseconds, that an RFC 3339 text
/// denotes; `None` where the text is not RFC 3339.
pub uninterp spec fn rfc3339_value(text: Seq<char>) -> Option<(i64, u32)>;

/// Relies on chrono's `DateTime::<Utc>::from_timestamp` (no instant out of
/// range) and `to_rfc3339_opts(SecondsFormat::Secs, true)` (the text).
#[verifier::external_body]
fn format_rfc3339(secs: i64, nanos: u32) -> (r: Option<String>)
    ensures
        r is None <==> rfc3339_text(secs, nanos) is None,
        r matches Some(s) ==> rfc3339_text(secs, nanos) == Some(s@),
{
    match chrono::DateTime::<chrono::Utc>::from_timestamp(secs, nanos) {
        Some(d) => Some(d.to_rfc3339_opts(chrono::SecondsFormat::Secs, true)),
        None => None,
    }
}

/// Relies on chrono's `DateTime::parse_from_rfc3339`, read back in UTC
/// through `timestamp` and `timestamp_subsec_nanos`.
#[verifier::external_body]
fn parse_rfc3339(text: &str) -> (r: Option<DateTime>)
    ensures
        r is None <==> rfc3339_value(text@) is None,
        r matches Some(d) ==> rfc3339_value(text@) == Some((d.secs, d.nanos)),
{
    match chrono::DateTime::parse_from_rfc3339(text) {
        Ok(d) => Some(DateTime { secs: d.timestamp(), nanos: d.timestamp_subsec_nanos() }),
        Err(_) => None,
    }
}

/// A date field can be written.
pub open spec fn date_enc_ok(d: Option<DateTime>) -> bool {
    d matches Some(t) ==> rfc3339_text(t.secs, t.nanos) is Some
}

/// `w` is the wire text of the date field `d`.
pub open spec fn date_enc(d: Option<DateTime>, w: Option<String>) -> bool {
    match (d, w) {
        (None, None) => true,
        (Some(t), Some(s)) => rfc3339_text(t.secs, t.nanos) == Some(s@),
        _ => false,
    }
}

/// A wire date field can be read.
pub open spec fn date_dec_ok(w: Option<String>) -> bool {
    w matches Some(s) ==> rfc3339_value(s@) is Some
}

/// `d` is the date that the wire field `w` denotes.
pub open spec fn date_dec(w: Option<String>, d: Option<DateTime>) -> bool {
    match (w, d) {
        (None, None) => true,
        (Some(s), Some(t)) => rfc3339_value(s@) == Some((t.secs, t.nanos)),
        _ => false,
    }
}

/// The date reads back as itself from the text it is written as.
pub open spec fn date_stable(d: Option<DateTime>) -> bool {
    d matches Some(t) ==> (rfc3339_text(t.secs, t.nanos) matches Some(s) ==> rfc3339_value(s)
        == Some((t.secs, t.nanos)))
}

/// Writes an optional date as RFC 3339 text.
pub fn from_model_opt(origin: Option<DateTime>) -> (r: Result<Option<String>, ConvError>)
    ensures
        r is Ok <==> date_enc_ok(origin),
        r matches Ok(w) ==> date_enc(origin, w),
        r matches Err(e) ==> e == ConvError::DateOutOfRange,
{
    match origin {
        None => Ok(None),
        Some(t) => match format_rfc3339(t.secs, t.nanos) {
            Some(s) => Ok(Some(s)),
            None => Err(ConvError::DateOutOfRange),
        },
    }
}

/// Reads an optional RFC 3339 text as a date.
pub fn to_model_opt(origin: Option<String>) -> (r: Result<Option<DateTime>, ConvError>)
    ensures
        r is Ok <==> date_dec_ok(origin),
        r matches Ok(d) ==> date_dec(origin, d),
        r matches Err(e) ==> e == ConvError::InvalidDate,
{
    match origin {
        None => Ok(None),
        Some(s) => match parse_rfc3339(s.as_str()) {
            Some(t) => Ok(Some(t)),
            None => Err(ConvError::InvalidDate),
        },
    }
}

} // verus!
