//! Instants in UTC and the decoders for the timestamps that the service
//! sends as strings.

use crate::text::{parse_error, parse_error_text};
use chrono::{DateTime, NaiveDateTime};
use vstd::prelude::*;

verus! {

/// The text that chrono renders for the instant `seconds` whole seconds and
/// `nanos` nanoseconds after the Unix epoch, in UTC: date, time with the
/// fraction of a second if there is one, and the zone name. `None` where
/// the calendar cannot hold the instant.
pub uninterp spec fn utc_display(seconds: int, nanos: int) -> Option<Seq<char>>;

/// The instant that chrono reads out of `text` under the pattern `format`,
/// as whole seconds and nanoseconds after the Unix epoch, the text taken
/// as UTC. `None` where the text does not fit the pattern.
pub uninterp spec fn parsed_instant(text: Seq<char>, format: Seq<char>) -> Option<(int, int)>;

/// Pattern of the timestamps that the service sends, such as
/// `2022-01-01T01:02:03.123Z`.
pub open spec fn wire_format() -> Seq<char> {
    "%Y-%m-%dT%H:%M:%S%.fZ"@
}

/// Whether `c` is one of the ten decimal digits.
pub open spec fn is_digit(c: char) -> bool {
    '0' as u32 <= c as u32 <= '9' as u32
}

/// The character that `YYYY-MM-DD HH:MM:SS` fixes at a position, where it
/// fixes one; the other positions hold digits.
pub open spec fn date_time_separator(position: int) -> Option<char> {
    if position == 4 || position == 7 {
        Some('-')
    } else if position == 10 {
        Some(' ')
    } else if position == 13 || position == 16 {
        Some(':')
    } else {
        None
    }
}

/// Whether the first nineteen characters of `text` have the form
/// `YYYY-MM-DD HH:MM:SS`.
pub open spec fn starts_with_date_time(text: Seq<char>) -> bool {
    &&& text.len() >= 19
    &&& forall|position: int|
        0 <= position < 19 ==> match date_time_separator(position) {
            Some(separator) => #[trigger] text[position] == separator,
            None => is_digit(text[position]),
        }
}

/// Whether `text` begins with a sign, as the rendering of an instant does
/// whose year is before 0 or after 9999.
pub open spec fn starts_with_sign(text: Seq<char>) -> bool {
    text.len() > 0 && (text[0] == '+' || text[0] == '-')
}

/// Builds the instant with `chrono::DateTime::from_timestamp` and renders it
/// with its `Display`. The result is `None` exactly where `from_timestamp`
/// refuses the pair. A rendering starts with a date of at least ten
/// characters, a space and a time of at least eight. Of a year from 0 to
/// 9999 chrono writes four digits, of any other a sign first; month, day,
/// hour, minute and second take two digits each.
#[verifier::external_body]
fn render_utc(seconds: i64, nanos: u32) -> (text: Option<String>)
    ensures
        match text {
            Some(rendered) => utc_display(seconds as int, nanos as int) == Some(rendered@)
                && rendered@.len() >= 19 && (starts_with_date_time(rendered@) || starts_with_sign(
                rendered@,
            )),
            None => utc_display(seconds as int, nanos as int) is None,
        },
{
    match DateTime::from_timestamp(seconds, nanos) {
        Some(instant) => Some(instant.to_string()),
        None => None,
    }
}

/// Parses with `chrono::NaiveDateTime::parse_from_str`, takes the result as
/// UTC and hands out its `timestamp` and `timestamp_subsec_nanos`. chrono
/// documents that `from_timestamp` accepts every such pair again.
#[verifier::external_body]
fn parse_naive_utc(text: &str, format: &str) -> (parsed: Option<(i64, u32)>)
    ensures
        match parsed {
            Some((seconds, nanos)) => parsed_instant(text@, format@) == Some(
                (seconds as int, nanos as int),
            ) && utc_display(seconds as int, nanos as int) is Some,
            None => parsed_instant(text@, format@) is None,
        },
{
    match NaiveDateTime::parse_from_str(text, format) {
        Ok(naive) => {
            let instant = naive.and_utc();
            Some((instant.timestamp(), instant.timestamp_subsec_nanos()))
        },
        Err(_) => None,
    }
}

/// An instant in UTC that the calendar can hold, kept as whole seconds and
/// nanoseconds after the Unix epoch.
#[derive(Clone, Copy, PartialEq, Eq, Structural)]
pub struct Timestamp {
    seconds: i64,
    nanos: u32,
}

impl Timestamp {
    /// Every instant that exists is one that the calendar can render.
    #[verifier::type_invariant]
    spec fn within_calendar(self) -> bool {
        utc_display(self.seconds as int, self.nanos as int) is Some
    }

    /// Whole seconds after the Unix epoch.
    pub closed spec fn seconds(self) -> int {
        self.seconds as int
    }

    /// Nanoseconds after the last whole second; a thousand million or
    /// more within a leap second.
    pub closed spec fn nanos(self) -> int {
        self.nanos as int
    }

    /// The full rendering of this instant.
    pub open spec fn display(self) -> Seq<char> {
        utc_display(self.seconds(), self.nanos()).unwrap()
    }

    /// The instant `seconds` and `nanos` after the Unix epoch, if the
    /// calendar can hold it.
    pub fn from_unix(seconds: i64, nanos: u32) -> (instant: Option<Timestamp>)
        ensures
            match instant {
                Some(held) => held.seconds() == seconds && held.nanos() == nanos && utc_display(
                    seconds as int,
                    nanos as int,
                ) is Some,
                None => utc_display(seconds as int, nanos as int) is None,
            },
    {
        match render_utc(seconds, nanos) {
            Some(_) => Some(Timestamp { seconds, nanos }),
            None => None,
        }
    }

    /// Whole seconds after the Unix epoch.
    pub fn unix_seconds(&self) -> (seconds: i64)
        ensures
            seconds == self.seconds(),
    {
        self.seconds
    }

    /// Nanoseconds after the last whole second.
    pub fn subsec_nanos(&self) -> (nanos: u32)
        ensures
            nanos == self.nanos(),
    {
        self.nanos
    }

    /// Renders the instant: date, time and zone name.
    pub fn utc_text(&self) -> (text: String)
        ensures
            text@ == self.display(),
            text@.len() >= 19,
            starts_with_date_time(text@) || starts_with_sign(text@),
    {
        proof {
            use_type_invariant(self);
        }
        match render_utc(self.seconds, self.nanos) {
            Some(rendered) => rendered,
            // Never taken: the invariant of the type excludes it.
            None => String::new(),
        }
    }
}

/// Formatter of `std::fmt`, handed through to chrono when an instant is printed.
#[verifier::external_type_specification]
#[verifier::external_body]
pub struct ExFormatter<'a>(std::fmt::Formatter<'a>);

/// Error of `std::fmt`.
#[verifier::external_type_specification]
#[verifier::external_body]
pub struct ExFmtError(std::fmt::Error);

impl std::fmt::Debug for Timestamp {
    /// Prints the instant as chrono prints it for debugging.
    #[verifier::external_body]
    fn fmt(&self, f: &mut std::fmt::Formatter<'_>) -> (done: Result<(), std::fmt::Error>) {
        match DateTime::from_timestamp(self.seconds, self.nanos) {
            Some(instant) => write!(f, "{:?}", instant),
            None => Err(std::fmt::Error),
        }
    }
}

/// Two instants with the same seconds and nanoseconds are the same instant.
pub proof fn lemma_instant_by_parts(a: Timestamp, b: Timestamp)
    requires
        a.seconds() == b.seconds(),
        a.nanos() == b.nanos(),
    ensures
        a == b,
{
}

/// What `date_parse` makes of a text.
pub open spec fn parsed_wire(text: Seq<char>) -> Option<(int, int)> {
    parsed_instant(text, wire_format())
}

/// Whether `instant` is what `parsed` describes.
pub open spec fn holds_parsed(instant: Option<Timestamp>, parsed: Option<(int, int)>) -> bool {
    match parsed {
        Some((seconds, nanos)) => instant matches Some(held) && held.seconds() == seconds
            && held.nanos() == nanos,
        None => instant is None,
    }
}

/// Parses a timestamp in the service's format.
pub fn date_parse(text: &str) -> (instant: Option<Timestamp>)
    ensures
        holds_parsed(instant, parsed_wire(text@)),
{
    match parse_naive_utc(text, "%Y-%m-%dT%H:%M:%S%.fZ") {
        Some((seconds, nanos)) => Timestamp::from_unix(seconds, nanos),
        None => None,
    }
}

/// Turns the outcome of parsing `text` into the outcome of decoding a
/// required field: a missing instant becomes an error that quotes the text.
pub fn require_instant(instant: Option<Timestamp>, text: &str) -> (decoded: Result<
    Timestamp,
    String,
>)
    ensures
        match instant {
            Some(held) => decoded == Ok::<Timestamp, String>(held),
            None => decoded matches Err(message) && message@ == parse_error_text(text@),
        },
{
    match instant {
        Some(held) => Ok(held),
        None => Err(parse_error(text)),
    }
}

/// Decodes a required timestamp field. A malformed text is an error.
pub fn datetime_from_str(text: &str) -> (decoded: Result<Timestamp, String>)
    ensures
        match decoded {
            Ok(held) => holds_parsed(Some(held), parsed_wire(text@)),
            Err(message) => parsed_wire(text@) is None && message@ == parse_error_text(text@),
        },
{
    require_instant(date_parse(text), text)
}

/// Decodes an optional timestamp field. An absent field is no value and no
/// error; a field that is present is decoded as a required one is.
pub fn optional_datetime_from_str(text: Option<&str>) -> (decoded: Result<
    Option<Timestamp>,
    String,
>)
    ensures
        match text {
            None => decoded == Ok::<Option<Timestamp>, String>(None),
            Some(present) => match decoded {
                Ok(held) => held is Some && holds_parsed(held, parsed_wire(present@)),
                Err(message) => parsed_wire(present@) is None && message@ == parse_error_text(
                    present@,
                ),
            },
        },
{
    match text {
        None => Ok(None),
        Some(present) => match datetime_from_str(present) {
            Ok(held) => Ok(Some(held)),
            Err(message) => Err(message),
        },
    }
}

} // verus!
