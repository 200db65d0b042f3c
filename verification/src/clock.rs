//! Times of day, as a kick-off time is given on a fixture row, and the
//! instant at which a page was read.

use chrono::NaiveTime;
use chrono::Timelike;
use vstd::prelude::*;

verus! {

/// The format in which a fixture row gives a kick-off time.
pub const CLOCK_FORMAT: &'static str = "%H:%M";

/// Hour and minute that `chrono::NaiveTime::parse_from_str` reads from
/// `text` under `format`, or `None` where it reports an error.
pub uninterp spec fn clock_reading(text: Seq<char>, format: Seq<char>) -> Option<(u32, u32)>;

/// Wraps `chrono::NaiveTime::parse_from_str`, handing back the hour and the
/// minute of the time it read. Claims that the outcome depends on the two
/// texts alone, and, as chrono documents of every `NaiveTime`, that the
/// hour is below 24 and the minute below 60.
#[verifier::external_body]
fn read_clock(text: &str, format: &str) -> (r: Option<(u32, u32)>)
    ensures
        r == clock_reading(text@, format@),
        r matches Some((hour, minute)) ==> hour < 24 && minute < 60,
{
    match NaiveTime::parse_from_str(text, format) {
        Ok(time) => Some((time.hour(), time.minute())),
        Err(_) => None,
    }
}

/// An hour and a minute as plain numbers.
pub struct HourMinute {
    pub hour: int,
    pub minute: int,
}

/// The kick-off time that `text` gives, if it gives one.
pub open spec fn clock_of(text: Seq<char>) -> Option<HourMinute> {
    match clock_reading(text, CLOCK_FORMAT@) {
        Some((hour, minute)) => Some(HourMinute { hour: hour as int, minute: minute as int }),
        None => None,
    }
}

/// A time of day to the minute.
#[derive(Clone, Copy, Debug, PartialEq, Eq, Structural)]
pub struct TimeOfDay {
    hour: u32,
    minute: u32,
}

impl View for TimeOfDay {
    type V = HourMinute;

    closed spec fn view(&self) -> HourMinute {
        HourMinute { hour: self.hour as int, minute: self.minute as int }
    }
}

impl DeepView for TimeOfDay {
    type V = HourMinute;

    open spec fn deep_view(&self) -> HourMinute {
        self@
    }
}

impl TimeOfDay {
    #[verifier::type_invariant]
    spec fn on_dial(self) -> bool {
        self.hour < 24 && self.minute < 60
    }

    /// The time with the given hour and minute, if the day has it.
    pub fn from_hm_opt(hour: u32, minute: u32) -> (r: Option<TimeOfDay>)
        ensures
            r.deep_view() == if hour < 24 && minute < 60 {
                Some(HourMinute { hour: hour as int, minute: minute as int })
            } else {
                None::<HourMinute>
            },
    {
        if hour < 24 && minute < 60 {
            Some(TimeOfDay { hour, minute })
        } else {
            None
        }
    }

    /// Reads a kick-off time such as `19:45`.
    pub fn parse(text: &str) -> (r: Option<TimeOfDay>)
        ensures
            r.deep_view() == clock_of(text@),
    {
        match read_clock(text, CLOCK_FORMAT) {
            Some((hour, minute)) => Some(TimeOfDay { hour, minute }),
            None => None,
        }
    }

    pub fn hour(&self) -> (r: u32)
        ensures
            r == self@.hour,
            r < 24,
    {
        proof {
            use_type_invariant(self);
        }
        self.hour
    }

    pub fn minute(&self) -> (r: u32)
        ensures
            r == self@.minute,
            r < 60,
    {
        proof {
            use_type_invariant(self);
        }
        self.minute
    }

    /// Times with the same numbers are the same time.
    pub proof fn lemma_same_numbers(a: TimeOfDay, b: TimeOfDay)
        requires
            a@ == b@,
        ensures
            a == b,
    {
    }
}

/// An instant, counted from the start of 1970 in UTC.
#[derive(Clone, Copy, Debug, PartialEq, Eq, Structural)]
pub struct Timestamp {
    pub secs: i64,
    pub nanos: u32,
}

} // verus!
