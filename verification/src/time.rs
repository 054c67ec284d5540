//! Instants on the wire: RFC 3339 text, read and written by `chrono`.

use vstd::prelude::*;
use chrono::DateTime;
use chrono::FixedOffset;
use chrono::SecondsFormat;
use crate::json::quote;
use crate::json::quoted;
use crate::json::read_string;
use crate::json::string_value;
use crate::json::FromJson;
use crate::json::ToJson;

verus! {

/// The instant that `text` names, as whole seconds since the start of 1970 in
/// UTC and the nanoseconds past them, or `None` where `chrono` does not read
/// `text` as a date and time with an offset.
pub uninterp spec fn instant_of(text: Seq<char>) -> Option<(i64, u32)>;

/// The RFC 3339 text, in UTC, of the instant so many seconds and nanoseconds
/// after the start of 1970, or `None` where `chrono` has no date for it.
pub uninterp spec fn rfc3339_text(seconds: i64, nanos: u32) -> Option<Seq<char>>;

/// `str::parse` at `chrono::DateTime<FixedOffset>`, then
/// `DateTime::timestamp` and `DateTime::timestamp_subsec_nanos`, which both
/// count in UTC whatever offset the text was written with.
///
/// Trusted: that the outcome depends on `text` alone.
#[verifier::external_body]
pub(crate) fn read_instant(text: &str) -> (instant: Option<(i64, u32)>)
    ensures
        instant == instant_of(text@),
{
    let parsed = text.parse::<DateTime<FixedOffset>>().ok();
    parsed.map(|at| (at.timestamp(), at.timestamp_subsec_nanos()))
}

/// `chrono::DateTime::from_timestamp`, then `DateTime::to_rfc3339_opts` with
/// as many digits of the second as the instant needs and `Z` for the offset.
///
/// Trusted: that the outcome depends on the two numbers alone.
#[verifier::external_body]
pub(crate) fn write_instant(seconds: i64, nanos: u32) -> (text: Option<String>)
    ensures
        text.deep_view() == rfc3339_text(seconds, nanos),
{
    let at = DateTime::from_timestamp(seconds, nanos);
    at.map(|at| at.to_rfc3339_opts(SecondsFormat::AutoSi, true))
}

/// An instant in UTC.
#[derive(Debug, Copy, Clone, PartialEq, Eq, Structural)]
pub struct Timestamp {
    /// Whole seconds since 1970-01-01T00:00:00Z, leap seconds not counted.
    pub seconds: i64,
    /// Nanoseconds past the whole second; a billion or more inside a leap
    /// second.
    pub nanos: u32,
}

impl Timestamp {
    /// The instant that a text names.
    pub open spec fn named(text: Seq<char>) -> Option<Timestamp> {
        match instant_of(text) {
            Some((seconds, nanos)) => Some(Timestamp { seconds, nanos }),
            None => None,
        }
    }

    /// The text of the instant, before it is quoted.
    pub open spec fn text(self) -> Option<Seq<char>> {
        rfc3339_text(self.seconds, self.nanos)
    }

    /// Reads RFC 3339 text.
    pub fn parse(text: &str) -> (instant: Option<Timestamp>)
        ensures
            instant == Timestamp::named(text@),
    {
        match read_instant(text) {
            Some((seconds, nanos)) => Some(Timestamp { seconds, nanos }),
            None => None,
        }
    }

    /// Writes RFC 3339 text.
    pub fn to_rfc3339(&self) -> (text: Option<String>)
        ensures
            text.deep_view() == self.text(),
    {
        write_instant(self.seconds, self.nanos)
    }
}

impl FromJson for Timestamp {
    open spec fn decodable(text: Seq<char>) -> bool {
        string_value(text) matches Some(written) && Timestamp::named(written) is Some
    }

    open spec fn decodes(text: Seq<char>, value: Timestamp) -> bool {
        string_value(text) matches Some(written) && Timestamp::named(written) == Some(value)
    }

    fn from_json(text: &str) -> (value: Option<Timestamp>) {
        match read_string(text) {
            Some(written) => Timestamp::parse(written.as_str()),
            None => None,
        }
    }
}

impl ToJson for Timestamp {
    open spec fn json(&self) -> Option<Seq<char>> {
        match self.text() {
            Some(written) => quoted(written),
            None => None,
        }
    }

    fn to_json(&self) -> (text: Option<String>) {
        match self.to_rfc3339() {
            Some(written) => quote(written.as_str()),
            None => None,
        }
    }
}

} // verus!
