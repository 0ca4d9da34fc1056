//! Points in time, and how they are written out.
use vstd::prelude::*;

verus! {

/// A point in time: seconds since the start of 1970 in UTC, and the nanoseconds into
/// that second, which run past a full second within a leap second.
#[derive(Clone, Copy, Debug, PartialEq, Eq, Structural)]
pub struct Timestamp {
    pub secs: i64,
    pub nanos: u32,
}

impl Timestamp {
    /// Whether this point in time is after `other`.
    pub open spec fn later_than(self, other: Timestamp) -> bool {
        self.secs > other.secs || (self.secs == other.secs && self.nanos > other.nanos)
    }

    /// Whether this point in time is after `other`.
    pub fn is_after(&self, other: &Timestamp) -> (later: bool)
        ensures
            later == self.later_than(*other),
    {
        self.secs > other.secs || (self.secs == other.secs && self.nanos > other.nanos)
    }
}

/// The layout of a date with hours and minutes.
pub const MINUTES_LAYOUT: &'static str = "%Y-%m-%d %H:%M";

/// The layout of a date with hours, minutes and seconds.
pub const SECONDS_LAYOUT: &'static str = "%Y-%m-%d %H:%M:%S";

/// The layout of a local date with hours, minutes, seconds and the offset from UTC.
pub const LOCAL_LAYOUT: &'static str = "%Y-%m-%d %H:%M:%S %:z";

/// How `chrono` writes out a point in time in UTC, if it can hold it: the text of
/// `DateTime::from_timestamp(secs, nanos)` in the layout `layout`.
pub uninterp spec fn written_in_utc(secs: i64, nanos: u32, layout: Seq<char>) -> Option<Seq<char>>;

/// Calls `chrono::DateTime::from_timestamp` and `chrono::DateTime::format`. The result
/// depends on the arguments alone and is named `written_in_utc`; it is `None` where
/// `from_timestamp` is. A layout that `format` does not know makes writing panic, so only
/// the two layouts in use are allowed.
#[verifier::external_body]
fn write_in_utc(secs: i64, nanos: u32, layout: &str) -> (text: Option<String>)
    requires
        layout@ == MINUTES_LAYOUT@ || layout@ == SECONDS_LAYOUT@,
    ensures
        match text {
            Some(t) => written_in_utc(secs, nanos, layout@) == Some(t@),
            None => written_in_utc(secs, nanos, layout@) is None,
        },
{
    match chrono::DateTime::from_timestamp(secs, nanos) {
        Some(time) => Some(time.format(layout).to_string()),
        None => None,
    }
}

/// Calls `chrono::DateTime::from_timestamp`, `chrono::DateTime::with_timezone` with
/// `chrono::Local`, and `chrono::DateTime::format`. It is `None` where `from_timestamp` is,
/// just as when the time is written in UTC. Which text it returns otherwise depends on the
/// machine's time zone, so nothing is claimed of that. Only the one layout in use is
/// allowed, as `format` knows it.
#[verifier::external_body]
fn write_in_local_time(secs: i64, nanos: u32, layout: &str) -> (text: Option<String>)
    requires
        layout@ == LOCAL_LAYOUT@,
    ensures
        text is Some <==> written_in_utc(secs, nanos, SECONDS_LAYOUT@) is Some,
{
    match chrono::DateTime::from_timestamp(secs, nanos) {
        Some(time) => Some(time.with_timezone(&chrono::Local).format(layout).to_string()),
        None => None,
    }
}

impl Timestamp {
    /// This point in time as a UTC date with hours and minutes.
    pub fn to_minutes(&self) -> (text: Option<String>)
        ensures
            match text {
                Some(t) => written_in_utc(self.secs, self.nanos, MINUTES_LAYOUT@) == Some(t@),
                None => written_in_utc(self.secs, self.nanos, MINUTES_LAYOUT@) is None,
            },
    {
        write_in_utc(self.secs, self.nanos, MINUTES_LAYOUT)
    }

    /// This point in time as a UTC date with hours, minutes and seconds.
    pub fn to_seconds(&self) -> (text: Option<String>)
        ensures
            match text {
                Some(t) => written_in_utc(self.secs, self.nanos, SECONDS_LAYOUT@) == Some(t@),
                None => written_in_utc(self.secs, self.nanos, SECONDS_LAYOUT@) is None,
            },
    {
        write_in_utc(self.secs, self.nanos, SECONDS_LAYOUT)
    }

    /// Whether this point in time can be written out.
    pub open spec fn is_date(self) -> bool {
        written_in_utc(self.secs, self.nanos, SECONDS_LAYOUT@) is Some
    }

    /// Whether `text` can be what this point in time reads in the machine's time zone, with
    /// the offset from UTC.
    pub closed spec fn can_read_locally(self, text: Option<String>) -> bool {
        call_ensures(write_in_local_time, (self.secs, self.nanos, LOCAL_LAYOUT), text)
    }

    /// This point in time as a date in the machine's time zone, with the offset from
    /// UTC. Which text that is rests on the machine.
    pub fn to_local(&self) -> (text: Option<String>)
        ensures
            self.can_read_locally(text),
            text is Some <==> self.is_date(),
    {
        write_in_local_time(self.secs, self.nanos, LOCAL_LAYOUT)
    }
}

} // verus!
