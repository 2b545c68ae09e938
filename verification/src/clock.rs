//! Instants of the UTC time line, counted from the Unix epoch, and their
//! RFC 3339 text.

use vstd::prelude::*;

verus! {

/// Seconds in one day of the time line (it has no leap seconds).
pub const SECONDS_PER_DAY: i64 = 86_400;

/// The first second that has a calendar date: midnight of 1 January of the
/// year -262143.
pub const EARLIEST_SECOND: i64 = -8_334_601_228_800;

/// The last second that has a calendar date: the end of 31 December of the
/// year 262142.
pub const LATEST_SECOND: i64 = 8_210_266_876_799;

/// Nanoseconds in one second.
pub const NANOS_PER_SECOND: u32 = 1_000_000_000;

/// Whether `secs` and `nanos` denote an instant that has a calendar date,
/// and so a text form: the second lies in the dated range and the
/// nanoseconds stay below one second.
pub open spec fn representable(secs: int, nanos: int) -> bool {
    &&& EARLIEST_SECOND <= secs <= LATEST_SECOND
    &&& 0 <= nanos < NANOS_PER_SECOND
}

/// The second that lies `days` whole days before the second `secs`.
pub open spec fn second_days_before(secs: int, days: nat) -> int {
    secs - SECONDS_PER_DAY * days
}

/// The RFC 3339 text of a representable instant, with the offset written as
/// `+00:00`. It is what the chrono crate writes for that instant; the
/// library states nothing more of it.
pub uninterp spec fn rfc3339_text(secs: int, nanos: int) -> Seq<char>;

/// An instant: whole seconds since the Unix epoch (negative before it) and
/// the nanoseconds into that second.
#[derive(Clone, Copy, Debug, PartialEq, Eq)]
pub struct Timestamp {
    pub secs: i64,
    pub nanos: u32,
}

impl Timestamp {
    /// Whether this instant has a calendar date.
    pub open spec fn is_valid(self) -> bool {
        representable(self.secs as int, self.nanos as int)
    }

    /// Tells whether this instant has a calendar date.
    pub fn check_valid(&self) -> (ok: bool)
        ensures
            ok == self.is_valid(),
    {
        EARLIEST_SECOND <= self.secs && self.secs <= LATEST_SECOND && self.nanos < NANOS_PER_SECOND
    }

    /// The instant `days` whole days earlier, at the same time of day, or
    /// `None` where that instant has no calendar date.
    pub fn days_earlier(&self, days: usize) -> (earlier: Option<Timestamp>)
        ensures
            earlier == if representable(
                second_days_before(self.secs as int, days as nat),
                self.nanos as int,
            ) {
                Some(
                    Timestamp {
                        secs: second_days_before(self.secs as int, days as nat) as i64,
                        nanos: self.nanos,
                    },
                )
            } else {
                None
            },
    {
        let shifted: i128 = self.secs as i128 - (SECONDS_PER_DAY as i128) * (days as i128);
        if self.nanos < NANOS_PER_SECOND && EARLIEST_SECOND as i128 <= shifted && shifted
            <= LATEST_SECOND as i128 {
            Some(Timestamp { secs: shifted as i64, nanos: self.nanos })
        } else {
            None
        }
    }

    /// The RFC 3339 text of this instant, or `None` where it has no
    /// calendar date.
    pub fn to_rfc3339(&self) -> (text: Option<String>)
        ensures
            text is Some <==> self.is_valid(),
            text is Some ==> text->Some_0@ == rfc3339_text(self.secs as int, self.nanos as int),
    {
        if self.check_valid() {
            Some(format_rfc3339(self.secs, self.nanos))
        } else {
            None
        }
    }
}

/// The current instant by the system clock.
///
/// Assumed, not proved: the body reads the clock with chrono's `Utc::now`
/// and keeps the two numbers that `DateTime::timestamp` and
/// `DateTime::timestamp_subsec_nanos` give for it. `Utc::now` measures the
/// time since the epoch and builds its result with
/// `DateTime::from_timestamp`, so the seconds are not negative, the instant
/// has a date, and the nanoseconds stay below one second. Which instant
/// comes back is left open.
#[verifier::external_body]
pub(crate) fn utc_now() -> (t: Timestamp)
    ensures
        t.is_valid(),
        t.secs >= 0,
{
    let t = chrono::Utc::now();
    Timestamp { secs: t.timestamp(), nanos: t.timestamp_subsec_nanos() }
}

/// The RFC 3339 text of an instant that has a date.
///
/// Assumed, not proved: the body builds the instant with chrono's
/// `DateTime::from_timestamp`, which accepts every pair of numbers that is
/// `representable`, and writes it with `DateTime::to_rfc3339`. The text
/// depends on the two numbers alone, and `rfc3339_text` is the name for it.
#[verifier::external_body]
fn format_rfc3339(secs: i64, nanos: u32) -> (text: String)
    requires
        representable(secs as int, nanos as int),
    ensures
        text@ == rfc3339_text(secs as int, nanos as int),
{
    chrono::DateTime::from_timestamp(secs, nanos).unwrap().to_rfc3339()
}

} // verus!
