//! Reading and producing timestamps through `chrono`.

use vstd::prelude::*;
use crate::cli::ts_nanos;
use crate::model::Timestamp;

verus! {

/// What `str::parse::<chrono::DateTime<chrono::Utc>>` gives for a text, as
/// seconds and nanoseconds since the epoch: `None` when the text is not a
/// timestamp that `chrono` accepts.
pub uninterp spec fn spec_parse_datetime(text: Seq<char>) -> Option<Timestamp>;

/// Parses an RFC 3339 timestamp with `chrono` (`DateTime<Utc>`'s `FromStr`),
/// giving `DateTime::timestamp` and `DateTime::timestamp_subsec_nanos`.
/// The result is named `spec_parse_datetime` of the text.
#[verifier::external_body]
pub(crate) fn parse_datetime(text: &str) -> (r: Option<Timestamp>)
    ensures
        r == spec_parse_datetime(text@),
{
    match text.parse::<chrono::DateTime<chrono::Utc>>() {
        Ok(t) => Some(Timestamp { secs: t.timestamp(), nanos: t.timestamp_subsec_nanos() }),
        Err(_) => None,
    }
}

/// What `chrono::DateTime::<Utc>::from_timestamp(secs, nanos)` followed by
/// `to_rfc3339` gives for a time: `None` when `chrono` cannot represent it.
pub uninterp spec fn spec_format_timestamp(t: Timestamp) -> Option<Seq<char>>;

/// A time whose year lies in 0000..=9999, the years that RFC 3339 writes
/// with four digits.
pub open spec fn in_four_digit_years(t: Timestamp) -> bool {
    -62_167_219_200 <= t.secs && t.secs <= 253_402_300_799
}

/// Writes a time in RFC 3339 with `chrono` (`DateTime::from_timestamp`, then
/// `DateTime::to_rfc3339`). The result is named `spec_format_timestamp` of
/// the time. `chrono`'s own reader gives the time back from what was written
/// when its year has four digits: the writer prints the date, the time with
/// a leap second as second 60, the fraction of a second to the nanosecond
/// and the offset `+00:00`, all of which the reader takes back.
#[verifier::external_body]
pub(crate) fn format_timestamp(t: Timestamp) -> (r: Option<String>)
    ensures
        r.deep_view() == spec_format_timestamp(t),
        (r matches Some(s) ==> (in_four_digit_years(t) ==> spec_parse_datetime(s@) == Some(t))),
{
    chrono::DateTime::from_timestamp(t.secs, t.nanos).map(|d| d.to_rfc3339())
}

/// A reading of the system clock: how far it is from the Unix epoch, and on
/// which side.
#[derive(Clone, Copy, Debug, PartialEq, Eq, Structural)]
pub struct ClockReading {
    /// The clock reads the epoch or a later time.
    pub after_epoch: bool,
    pub secs: u64,
    /// Below one second.
    pub nanos: u32,
}

/// Reads the system clock with `std::time::SystemTime::now`, as its
/// distance from `UNIX_EPOCH` (`SystemTime::duration_since`, whose error
/// carries the distance of a clock set before the epoch). Nothing is claimed
/// of the time itself; `Duration::subsec_nanos` is documented to stay below
/// one billion.
#[verifier::external_body]
fn read_system_clock() -> (r: ClockReading)
    ensures
        r.nanos < 1_000_000_000,
{
    match std::time::SystemTime::now().duration_since(std::time::UNIX_EPOCH) {
        Ok(d) => ClockReading { after_epoch: true, secs: d.as_secs(), nanos: d.subsec_nanos() },
        Err(e) => ClockReading {
            after_epoch: false,
            secs: e.duration().as_secs(),
            nanos: e.duration().subsec_nanos(),
        },
    }
}

/// The time a clock reading stands for, as nanoseconds since the epoch.
pub open spec fn reading_nanos(r: ClockReading) -> int {
    let n = r.secs * 1_000_000_000 + r.nanos;
    if r.after_epoch {
        n
    } else {
        -n
    }
}

/// The timestamp of a clock reading: the time it stands for, with the
/// nanoseconds below one second; a time beyond what a timestamp holds
/// becomes the nearest timestamp.
pub open spec fn spec_reading_time(r: ClockReading) -> Timestamp {
    if r.after_epoch {
        if r.secs <= i64::MAX {
            Timestamp { secs: r.secs as i64, nanos: r.nanos }
        } else {
            Timestamp { secs: i64::MAX, nanos: 999_999_999 }
        }
    } else if r.nanos == 0 {
        if r.secs <= 0x8000_0000_0000_0000 {
            Timestamp { secs: (0 - r.secs) as i64, nanos: 0 }
        } else {
            Timestamp { secs: i64::MIN, nanos: 0 }
        }
    } else if r.secs < 0x8000_0000_0000_0000 {
        Timestamp { secs: (0 - r.secs - 1) as i64, nanos: (1_000_000_000 - r.nanos) as u32 }
    } else {
        Timestamp { secs: i64::MIN, nanos: 0 }
    }
}

/// The timestamp of a clock reading.
pub fn reading_time(r: ClockReading) -> (t: Timestamp)
    requires
        r.nanos < 1_000_000_000,
    ensures
        t == spec_reading_time(r),
        t.nanos < 1_000_000_000,
        i64::MIN * 1_000_000_000 <= reading_nanos(r) < (i64::MAX + 1) * 1_000_000_000 ==> ts_nanos(t)
            == reading_nanos(r),
{
    if r.after_epoch {
        if r.secs <= i64::MAX as u64 {
            Timestamp { secs: r.secs as i64, nanos: r.nanos }
        } else {
            Timestamp { secs: i64::MAX, nanos: 999_999_999 }
        }
    } else if r.nanos == 0 {
        if r.secs <= 0x8000_0000_0000_0000u64 {
            let s: i128 = 0 - (r.secs as i128);
            Timestamp { secs: s as i64, nanos: 0 }
        } else {
            Timestamp { secs: i64::MIN, nanos: 0 }
        }
    } else if r.secs < 0x8000_0000_0000_0000u64 {
        let s: i128 = 0 - (r.secs as i128) - 1;
        Timestamp { secs: s as i64, nanos: 1_000_000_000 - r.nanos }
    } else {
        Timestamp { secs: i64::MIN, nanos: 0 }
    }
}

/// The current time, read from the system clock; a clock set before the
/// epoch gives a time before the epoch. Nothing more is claimed of it: it
/// depends on the clock.
pub(crate) fn now() -> (t: Timestamp)
    ensures
        t.nanos < 1_000_000_000,
{
    reading_time(read_system_clock())
}

} // verus!
