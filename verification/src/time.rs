//! Points in time as plain values, and the calls into `chrono` that read the
//! clock and lay a point in time out as text.

use vstd::prelude::*;

verus! {

/// Smallest number of seconds since the Unix epoch that `chrono` represents
/// (midnight of 1 January of the year -262143, UTC).
pub const MIN_SECONDS: i64 = -8_334_601_228_800i64;

/// Largest number of seconds since the Unix epoch that `chrono` represents
/// (the last second of the year 262142, UTC).
pub const MAX_SECONDS: i64 = 8_210_266_876_799i64;

/// Whether the three numbers describe a point in time that `chrono` can hold:
/// the seconds lie in its range, the nanoseconds are below one second (or
/// below two on the last second of a minute, which denotes a leap second) and
/// the zone lies less than a day from UTC.
pub open spec fn valid_instant(seconds: int, nanos: int, offset: int) -> bool {
    &&& MIN_SECONDS <= seconds <= MAX_SECONDS
    &&& 0 <= nanos < 2_000_000_000
    &&& (nanos >= 1_000_000_000 ==> seconds % 60 == 59)
    &&& -86_400 < offset < 86_400
}

/// A point in time together with the zone it is shown in.
#[derive(Clone, Copy, Debug, PartialEq, Eq, Structural)]
pub struct Timestamp {
    seconds: i64,
    nanos: u32,
    offset: i32,
}

/// Whether `chrono` can write a date and time under `pattern`: whether its
/// formatter knows every item that it splits the pattern into. The formatter
/// is given the date, the time and the zone, so the answer does not depend on
/// the instant that is written.
pub uninterp spec fn strftime_valid(pattern: Seq<char>) -> bool;

/// The text that `chrono` writes for the instant `seconds` and `nanos` after
/// the Unix epoch, shown `offset` seconds east of UTC, under `pattern`.
pub uninterp spec fn strftime_text(seconds: int, nanos: int, offset: int, pattern: Seq<char>) -> Seq<char>;

impl Timestamp {
    #[verifier::type_invariant]
    spec fn inv(self) -> bool {
        valid_instant(self.seconds as int, self.nanos as int, self.offset as int)
    }

    /// Seconds since the Unix epoch, leap seconds not counted.
    pub closed spec fn spec_seconds(self) -> int {
        self.seconds as int
    }

    /// Nanoseconds since the last whole second.
    pub closed spec fn spec_nanos(self) -> int {
        self.nanos as int
    }

    /// Seconds that the zone lies east of UTC.
    pub closed spec fn spec_offset(self) -> int {
        self.offset as int
    }

    /// The text of this point in time under `pattern`.
    pub open spec fn formatted(self, pattern: Seq<char>) -> Seq<char> {
        strftime_text(self.spec_seconds(), self.spec_nanos(), self.spec_offset(), pattern)
    }

    /// The same instant, shown in UTC.
    pub closed spec fn in_utc(self) -> Timestamp {
        Timestamp { offset: 0, ..self }
    }

    /// The same instant, shown in UTC.
    pub fn to_utc(self) -> (utc: Timestamp)
        ensures
            utc == self.in_utc(),
            utc.spec_seconds() == self.spec_seconds(),
            utc.spec_nanos() == self.spec_nanos(),
            utc.spec_offset() == 0,
    {
        proof {
            use_type_invariant(&self);
        }
        Timestamp { seconds: self.seconds, nanos: self.nanos, offset: 0 }
    }

    /// The point in time `seconds` and `nanos` after the Unix epoch, shown
    /// `offset` seconds east of UTC; `None` where the numbers are out of range.
    pub fn new(seconds: i64, nanos: u32, offset: i32) -> (r: Option<Timestamp>)
        ensures
            r is Some <==> valid_instant(seconds as int, nanos as int, offset as int),
            r matches Some(t) ==> t.spec_seconds() == seconds && t.spec_nanos() == nanos
                && t.spec_offset() == offset,
    {
        if seconds < MIN_SECONDS || seconds > MAX_SECONDS {
            return None;
        }
        if nanos >= 2_000_000_000 || offset <= -86_400 || offset >= 86_400 {
            return None;
        }
        if nanos >= 1_000_000_000 && (seconds - MIN_SECONDS) % 60 != 59 {
            return None;
        }
        Some(Timestamp { seconds, nanos, offset })
    }

    pub fn seconds(&self) -> (r: i64)
        ensures
            r == self.spec_seconds(),
    {
        self.seconds
    }

    pub fn nanos(&self) -> (r: u32)
        ensures
            r == self.spec_nanos(),
    {
        self.nanos
    }

    pub fn offset(&self) -> (r: i32)
        ensures
            r == self.spec_offset(),
    {
        self.offset
    }
}

/// Calls `chrono::DateTime::format` on the Unix epoch and lets
/// `DelayedFormat::write_to` write the result into a string; tells whether
/// that went without an error. The contract only gives that answer its name.
#[verifier::external_body]
pub(crate) fn pattern_is_valid(pattern: &str) -> (b: bool)
    ensures
        b == strftime_valid(pattern@),
{
    let mut text = String::new();
    chrono::DateTime::UNIX_EPOCH.format(pattern).write_to(&mut text).is_ok()
}

/// Calls `chrono::DateTime::format` on the instant that `chrono` builds from
/// the three numbers of `at` (`DateTime::from_timestamp`, shown in the zone
/// `FixedOffset::east_opt`, both of which accept every [Timestamp]), and
/// takes the text it writes. The precondition leaves out the patterns on
/// which the formatter fails; the contract gives the text its name.
#[verifier::external_body]
pub(crate) fn format_timestamp(at: Timestamp, pattern: &str) -> (text: String)
    requires
        strftime_valid(pattern@),
    ensures
        text@ == strftime_text(at.spec_seconds(), at.spec_nanos(), at.spec_offset(), pattern@),
{
    let utc = chrono::DateTime::from_timestamp(at.seconds, at.nanos).unwrap();
    let zone = chrono::FixedOffset::east_opt(at.offset).unwrap();
    utc.with_timezone(&zone).format(pattern).to_string()
}

/// Calls `chrono::Local::now` and hands out the instant it read, in the
/// machine's zone, by the three numbers that `chrono` gives for it
/// (`timestamp`, `timestamp_subsec_nanos`, the offset's `local_minus_utc`).
/// Nothing is promised of the value: it is whatever the clock showed.
#[verifier::external_body]
pub(crate) fn current_time() -> (now: Timestamp)
{
    let now = chrono::Local::now();
    Timestamp {
        seconds: now.timestamp(),
        nanos: now.timestamp_subsec_nanos(),
        offset: now.offset().local_minus_utc(),
    }
}

} // verus!
