//! Instants of time, held as Unix seconds and nanoseconds, and their RFC 3339
//! text.

use crate::text::{comma_free, single_line};
use vstd::prelude::*;

verus! {

/// The first second that a timestamp can hold: the start of the year -262143.
pub const MIN_UNIX_SECONDS: i64 = -8_334_601_228_800;

/// The last second that a timestamp can hold: the end of the year 262142.
pub const MAX_UNIX_SECONDS: i64 = 8_210_266_876_799;

/// Whether `secs` seconds and `nanos` nanoseconds after the Unix epoch name an
/// instant. A nanosecond count of a thousand million or more stands for a
/// leap second, which can only follow the 59th second of a minute.
pub open spec fn valid_instant(secs: int, nanos: int) -> bool {
    &&& MIN_UNIX_SECONDS <= secs <= MAX_UNIX_SECONDS
    &&& 0 <= nanos < 2_000_000_000
    &&& nanos >= 1_000_000_000 ==> secs % 60 == 59
}

/// Whether `c` can stand in the RFC 3339 text of an instant in UTC: a digit,
/// a sign, or one of the marks between the parts.
pub open spec fn timestamp_char(c: char) -> bool {
    ('0' <= c && c <= '9') || c == '-' || c == '+' || c == ':' || c == '.' || c == 'T'
}

/// Every character of `text` can stand in the text of an instant.
pub open spec fn timestamp_chars(text: Seq<char>) -> bool {
    forall|i: int| 0 <= i < text.len() ==> timestamp_char(#[trigger] text[i])
}

/// The RFC 3339 text of the instant `secs`, `nanos` in UTC, as chrono's
/// `DateTime::<Utc>::to_rfc3339` writes it.
pub uninterp spec fn rfc3339_text(secs: i64, nanos: u32) -> Seq<char>;

/// The instant that chrono's parser of `DateTime<Utc>` reads from `text`, as
/// Unix seconds and nanoseconds, or `None` where it rejects the text.
pub uninterp spec fn parsed_instant(text: Seq<char>) -> Option<(i64, u32)>;

/// An instant of time in UTC.
#[derive(Clone, Copy, Debug, PartialEq, Eq, Structural)]
pub struct Timestamp {
    /// Whole seconds since 1970-01-01T00:00:00Z, leap seconds not counted.
    pub secs: i64,
    /// Nanoseconds since the last whole second.
    pub nanos: u32,
}

/// The timestamp that `text` denotes, if any.
pub open spec fn timestamp_of(text: Seq<char>) -> Option<Timestamp> {
    match parsed_instant(text) {
        Some((secs, nanos)) => if valid_instant(secs as int, nanos as int) {
            Some(Timestamp { secs, nanos })
        } else {
            None
        },
        None => None,
    }
}

/// Calls chrono's `DateTime::<Utc>::from_timestamp` and, on the instant it
/// gives, `DateTime::to_rfc3339`. The contract names the text, and claims of
/// it that it is made of digits, signs, colons, a full stop and the letter
/// `T` alone, and that chrono's own parser reads the same instant back from
/// it. `from_timestamp` returns a value for every valid instant, so the body
/// does not panic.
#[verifier::external_body]
fn format_rfc3339(secs: i64, nanos: u32) -> (text: String)
    requires
        valid_instant(secs as int, nanos as int),
    ensures
        text@ == rfc3339_text(secs, nanos),
        timestamp_chars(text@),
        parsed_instant(text@) == Some((secs, nanos)),
{
    chrono::DateTime::from_timestamp(secs, nanos).unwrap().to_rfc3339()
}

/// Calls `str::parse::<chrono::DateTime<chrono::Utc>>`, that is chrono's
/// `FromStr` for `DateTime<Utc>`, and hands out the instant by
/// `DateTime::timestamp` and `DateTime::timestamp_subsec_nanos`. The contract
/// names the result.
#[verifier::external_body]
fn parse_rfc3339(text: &str) -> (instant: Option<(i64, u32)>)
    ensures
        instant == parsed_instant(text@),
{
    match text.parse::<chrono::DateTime<chrono::Utc>>() {
        Ok(t) => Some((t.timestamp(), t.timestamp_subsec_nanos())),
        Err(_) => None,
    }
}

impl Timestamp {
    /// A timestamp is well formed when it names an instant.
    pub open spec fn wf(&self) -> bool {
        valid_instant(self.secs as int, self.nanos as int)
    }

    /// The timestamp `secs` seconds and `nanos` nanoseconds after the Unix
    /// epoch, or `None` where these name no instant.
    pub fn new(secs: i64, nanos: u32) -> (made: Option<Timestamp>)
        ensures
            valid_instant(secs as int, nanos as int) ==> made == Some(Timestamp { secs, nanos }),
            !valid_instant(secs as int, nanos as int) ==> made is None,
    {
        if secs < MIN_UNIX_SECONDS || secs > MAX_UNIX_SECONDS || nanos >= 2_000_000_000 {
            return None;
        }
        if nanos >= 1_000_000_000 {
            match secs.checked_rem_euclid(60) {
                Some(second) => {
                    if second != 59 {
                        return None;
                    }
                },
                None => {
                    return None;
                },
            }
        }
        Some(Timestamp { secs, nanos })
    }

    /// The RFC 3339 text of this instant. It holds neither a comma nor a
    /// line feed, and `parse` reads this timestamp back from it.
    pub fn to_rfc3339(&self) -> (text: String)
        requires
            self.wf(),
        ensures
            text@ == rfc3339_text(self.secs, self.nanos),
            timestamp_chars(text@),
            comma_free(text@),
            single_line(text@),
            timestamp_of(text@) == Some(*self),
    {
        format_rfc3339(self.secs, self.nanos)
    }

    /// Reads a timestamp from its RFC 3339 text.
    pub fn parse(text: &str) -> (read: Option<Timestamp>)
        ensures
            read == timestamp_of(text@),
            read matches Some(t) ==> t.wf(),
    {
        match parse_rfc3339(text) {
            Some((secs, nanos)) => Timestamp::new(secs, nanos),
            None => None,
        }
    }
}

} // verus!
