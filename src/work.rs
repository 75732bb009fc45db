use crate::clock::{checkpoint_of, seconds_of_day, ClockTime, Hms};
use crate::duration::{trunc_div, WorkDuration};
use vstd::prelude::*;

verus! {

/// The argument list holds at least one checkpoint pair and no unpaired checkpoint.
pub open spec fn valid_count(n: int) -> bool {
    n >= 2 && n % 2 == 0
}

/// Seconds summed over the first `k` pairs `(ts[0], ts[1])`, `(ts[2], ts[3])`, ...,
/// each pair counting its end minus its start.
pub open spec fn pairs_total(ts: Seq<Hms>, k: nat) -> int
    decreases k,
{
    if k == 0 {
        0
    } else {
        pairs_total(ts, (k - 1) as nat) + seconds_of_day(ts[2 * k - 1]) - seconds_of_day(
            ts[2 * k - 2],
        )
    }
}

/// Seconds at work over all complete pairs of `ts`; a trailing unpaired time is
/// left out.
pub open spec fn work_seconds(ts: Seq<Hms>) -> int {
    pairs_total(ts, ts.len() / 2)
}

/// The views of a list of times.
pub open spec fn hms_of(ts: Seq<ClockTime>) -> Seq<Hms> {
    ts.map_values(|t: ClockTime| t@)
}

/// Every checkpoint of `args` denotes a time of day.
pub open spec fn all_parse(args: Seq<Seq<char>>) -> bool {
    forall|i: int| 0 <= i < args.len() ==> (#[trigger] checkpoint_of(args[i])) is Some
}

/// The times of day that the checkpoints of `args` denote, where all of them do.
pub open spec fn checkpoints_of(args: Seq<Seq<char>>) -> Seq<Hms> {
    args.map_values(|s: Seq<char>| checkpoint_of(s).unwrap())
}

/// The views of a list of strings.
pub open spec fn texts_of(args: Seq<String>) -> Seq<Seq<char>> {
    args.map_values(|s: String| s@)
}

/// What an invocation with a list of checkpoints reports.
#[derive(Clone, Copy, Debug, PartialEq, Eq, Structural)]
pub enum WorkReport {
    /// The number of checkpoints is odd or below two.
    InvalidInput,
    /// Some checkpoint is not an `hh:mm` time of day.
    ParseError,
    /// The time at work: whole hours, and the minutes beyond them.
    WorkTime { hours: i128, minutes: i128 },
}

/// The report for the checkpoints `args`.
pub open spec fn report_of(args: Seq<Seq<char>>) -> WorkReport {
    if !valid_count(args.len() as int) {
        WorkReport::InvalidInput
    } else if !all_parse(args) {
        WorkReport::ParseError
    } else {
        let secs = work_seconds(checkpoints_of(args));
        let hours = trunc_div(secs, 3600);
        WorkReport::WorkTime {
            hours: hours as i128,
            minutes: (trunc_div(secs, 60) - hours * 60) as i128,
        }
    }
}

/// Checks that the arguments hold at least two checkpoints and an even number of
/// them.
pub fn validate_input(args: Vec<String>) -> (r: bool)
    ensures
        r == valid_count(args.len() as int),
{
    let len = args.len();
    let has_more_than_two_args = len >= 2;
    let args_number_is_even = len % 2 == 0;
    has_more_than_two_args && args_number_is_even
}

/// Parses every checkpoint into a time of day, in order; `None` as soon as one
/// of them is no `hh:mm` time.
pub fn parse_args_to_time(args: Vec<String>) -> (r: Option<Vec<ClockTime>>)
    ensures
        r is Some <==> all_parse(texts_of(args@)),
        r matches Some(ts) ==> hms_of(ts@) == checkpoints_of(texts_of(args@)),
{
    let mut time_list: Vec<ClockTime> = Vec::new();
    let mut i: usize = 0;
    while i < args.len()
        invariant
            i <= args.len(),
            time_list@.len() == i,
            forall|j: int|
                0 <= j < i ==> checkpoint_of(#[trigger] args@[j]@) == Some(time_list@[j]@),
        decreases args.len() - i,
    {
        match ClockTime::parse_checkpoint(args[i].as_str()) {
            Some(t) => time_list.push(t),
            None => {
                proof {
                    assert(checkpoint_of(texts_of(args@)[i as int]) is None);
                }
                return None;
            },
        }
        i = i + 1;
    }
    proof {
        let texts = texts_of(args@);
        assert forall|j: int| 0 <= j < texts.len() implies (#[trigger] checkpoint_of(
            texts[j],
        )) is Some by {
            assert(checkpoint_of(args@[j]@) == Some(time_list@[j]@));
        }
        assert(hms_of(time_list@) =~= checkpoints_of(texts));
    }
    Some(time_list)
}

/// Sums the spans of the pairs `(time_list[0], time_list[1])`,
/// `(time_list[2], time_list[3])`, ...: each pair counts its end minus its start,
/// negative where the end is earlier. A trailing unpaired time is left out.
pub fn count_work_time(time_list: Vec<ClockTime>) -> (r: WorkDuration)
    ensures
        r@ == work_seconds(hms_of(time_list@)),
{
    let ghost ts = hms_of(time_list@);
    let pairs: usize = time_list.len() / 2;
    let mut total: i128 = 0;
    let mut k: usize = 0;
    while k < pairs
        invariant
            pairs == time_list@.len() / 2,
            ts == hms_of(time_list@),
            k <= pairs,
            total == pairs_total(ts, k as nat),
            -86400 * k <= total <= 86400 * k,
        decreases pairs - k,
    {
        assert(2 * k + 1 < time_list.len());
        let start = &time_list[2 * k];
        let end = &time_list[2 * k + 1];
        let span = end.signed_duration_since(start);
        proof {
            assert(ts[2 * k as int] == start@);
            assert(ts[2 * k + 1] == end@);
        }
        total = total + span.num_seconds();
        k = k + 1;
    }
    WorkDuration::seconds(total)
}

/// Validates, parses and sums the checkpoints `args`, and splits the time at work
/// into whole hours and the minutes beyond them.
pub fn work_report(args: Vec<String>) -> (r: WorkReport)
    ensures
        r == report_of(texts_of(args@)),
{
    if !validate_input(args.clone()) {
        return WorkReport::InvalidInput;
    }
    match parse_args_to_time(args) {
        None => WorkReport::ParseError,
        Some(time_list) => {
            let duration = count_work_time(time_list);
            let hours = duration.num_hours();
            let minutes = duration.num_minutes() - hours * 60;
            WorkReport::WorkTime { hours, minutes }
        },
    }
}

/// Reporting is a function of the checkpoints alone: two invocations whose
/// checkpoints read the same report the same.
pub proof fn lemma_report_deterministic(a: Seq<String>, b: Seq<String>)
    requires
        texts_of(a) == texts_of(b),
    ensures
        report_of(texts_of(a)) == report_of(texts_of(b)),
{
}

} // verus!
