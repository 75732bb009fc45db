use vstd::prelude::*;

verus! {

/// Division of `x` by a positive `d`, rounded toward zero.
pub open spec fn trunc_div(x: int, d: int) -> int
    recommends
        d > 0,
{
    if x >= 0 {
        x / d
    } else {
        -((-x) / d)
    }
}

/// A signed span of time with a resolution of one second.
#[derive(Clone, Copy, Debug, PartialEq, Eq, Structural)]
pub struct WorkDuration {
    secs: i128,
}

impl View for WorkDuration {
    type V = int;

    /// The span in seconds.
    closed spec fn view(&self) -> int {
        self.secs as int
    }
}

impl WorkDuration {
    /// A span of the given number of seconds.
    pub fn seconds(secs: i128) -> (r: WorkDuration)
        ensures
            r@ == secs,
    {
        WorkDuration { secs }
    }

    /// A span of the given number of hours.
    pub fn hours(hours: i64) -> (r: WorkDuration)
        ensures
            r@ == hours * 3600,
    {
        WorkDuration { secs: hours as i128 * 3600 }
    }

    /// The span in seconds.
    pub fn num_seconds(&self) -> (r: i128)
        ensures
            r == self@,
    {
        self.secs
    }

    /// The number of whole minutes in the span, rounded toward zero.
    pub fn num_minutes(&self) -> (r: i128)
        ensures
            r == trunc_div(self@, 60),
    {
        self.secs.checked_div(60).unwrap()
    }

    /// The number of whole hours in the span, rounded toward zero.
    pub fn num_hours(&self) -> (r: i128)
        ensures
            r == trunc_div(self@, 3600),
    {
        self.secs.checked_div(3600).unwrap()
    }
}

} // verus!
