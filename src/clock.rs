use crate::duration::WorkDuration;
use vstd::prelude::*;
use vstd::string::StringExecFns;

verus! {

/// Hour, minute and second of a time of day as a wall clock shows them.
pub type Hms = (u32, u32, u32);

/// A time of day on a 24-hour clock.
pub open spec fn valid_hms(t: Hms) -> bool {
    t.0 < 24 && t.1 < 60 && t.2 < 60
}

/// Seconds elapsed since midnight at the time of day `t`.
pub open spec fn seconds_of_day(t: Hms) -> int {
    t.0 * 3600 + t.1 * 60 + t.2
}

/// The time of day that chrono's `NaiveTime` parser reads from `s`, as hour, minute
/// and second; `None` where it rejects `s`.
pub uninterp spec fn naive_time_from_str(s: Seq<char>) -> Option<Hms>;

/// The text handed to the time parser for a checkpoint: the checkpoint with a
/// seconds field of zero appended.
pub open spec fn with_zero_seconds(s: Seq<char>) -> Seq<char> {
    s + seq![':', '0', '0']
}

/// The time of day that a `hh:mm` checkpoint denotes, if any.
pub open spec fn checkpoint_of(s: Seq<char>) -> Option<Hms> {
    naive_time_from_str(with_zero_seconds(s))
}

/// Relies on chrono's `FromStr` for `NaiveTime` (an `hh:mm` or `hh:mm:ss` time
/// of day) and on `Timelike::{hour, minute, second}`, documented to lie in 0..=23,
/// 0..=59 and 0..=59. A fraction of a second is not read.
#[verifier::external_body]
fn naive_time_fields(s: &str) -> (r: Option<Hms>)
    ensures
        r == naive_time_from_str(s@),
        r matches Some(t) ==> valid_hms(t),
{
    match s.parse::<chrono::NaiveTime>() {
        Ok(t) => Some(
            (chrono::Timelike::hour(&t), chrono::Timelike::minute(&t), chrono::Timelike::second(&t)),
        ),
        Err(_) => None,
    }
}

/// A time of day without a date, to the second.
#[derive(Clone, Copy, Debug, PartialEq, Eq, Structural)]
pub struct ClockTime {
    hour: u32,
    minute: u32,
    second: u32,
}

impl View for ClockTime {
    type V = Hms;

    closed spec fn view(&self) -> Hms {
        (self.hour, self.minute, self.second)
    }
}

impl ClockTime {
    #[verifier::type_invariant]
    spec fn inv(self) -> bool {
        valid_hms((self.hour, self.minute, self.second))
    }

    /// The time of day `hour:minute:second`.
    pub fn from_hms(hour: u32, minute: u32, second: u32) -> (r: ClockTime)
        requires
            valid_hms((hour, minute, second)),
        ensures
            r@ == (hour, minute, second),
    {
        ClockTime { hour, minute, second }
    }

    /// The signed span from `earlier` to `self`; negative where `earlier` is later
    /// in the day.
    pub fn signed_duration_since(&self, earlier: &ClockTime) -> (r: WorkDuration)
        ensures
            r@ == seconds_of_day(self@) - seconds_of_day(earlier@),
            -86400 < r@ < 86400,
    {
        proof {
            use_type_invariant(self);
            use_type_invariant(earlier);
        }
        let later_secs: i128 = self.hour as i128 * 3600 + self.minute as i128 * 60
            + self.second as i128;
        let earlier_secs: i128 = earlier.hour as i128 * 3600 + earlier.minute as i128 * 60
            + earlier.second as i128;
        WorkDuration::seconds(later_secs - earlier_secs)
    }

    /// Parses an `hh:mm` checkpoint: appends a seconds field of zero and reads the
    /// result as a time of day. `None` where the text is no such time.
    pub fn parse_checkpoint(s: &str) -> (r: Option<ClockTime>)
        ensures
            r is Some <==> checkpoint_of(s@) is Some,
            r matches Some(t) ==> checkpoint_of(s@) == Some(t@),
    {
        let candidate = String::from_str(s).concat(":00");
        proof {
            reveal_strlit(":00");
            assert(candidate@ =~= with_zero_seconds(s@));
        }
        match naive_time_fields(candidate.as_str()) {
            Some((hour, minute, second)) => Some(ClockTime { hour, minute, second }),
            None => None,
        }
    }
}

} // verus!
