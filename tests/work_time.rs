use work_time_counter::{
    count_work_time, parse_args_to_time, validate_input, work_report, ClockTime, WorkDuration,
    WorkReport,
};

fn strings(items: &[&str]) -> Vec<String> {
    items.iter().map(|s| s.to_string()).collect()
}

#[test]
fn should_count_simple_8_h_work_time() {
    let work_time_result = count_work_time(vec![
        ClockTime::from_hms(7, 0, 0),
        ClockTime::from_hms(15, 0, 0),
    ]);

    let expected_duration = WorkDuration::hours(8);
    assert_eq!(work_time_result, expected_duration);
}

#[test]
fn should_count_8_h_work_time_with_break() {
    let work_time_result = count_work_time(vec![
        ClockTime::from_hms(7, 0, 0),
        ClockTime::from_hms(8, 0, 0),
        ClockTime::from_hms(8, 15, 0),
        ClockTime::from_hms(15, 15, 0),
    ]);

    let expected_duration = WorkDuration::hours(8);
    assert_eq!(work_time_result, expected_duration);
}

#[test]
fn validate_accepts_only_even_counts_of_two_or_more() {
    assert!(!validate_input(strings(&[])));
    assert!(!validate_input(strings(&["8:00"])));
    assert!(validate_input(strings(&["8:00", "9:00"])));
    assert!(!validate_input(strings(&["8:00", "9:00", "10:00"])));
    assert!(validate_input(strings(&["8:00", "9:00", "10:00", "11:00"])));
}

#[test]
fn parse_reads_each_checkpoint_in_order() {
    let parsed = parse_args_to_time(strings(&["8:00", "16:00"]));
    assert_eq!(
        parsed,
        Some(vec![ClockTime::from_hms(8, 0, 0), ClockTime::from_hms(16, 0, 0)])
    );
}

#[test]
fn parse_rejects_minute_out_of_range() {
    assert_eq!(parse_args_to_time(strings(&["8:60"])), None);
}

#[test]
fn parse_rejects_hour_out_of_range() {
    assert_eq!(parse_args_to_time(strings(&["24:00", "8:00"])), None);
}

#[test]
fn parse_fails_as_a_whole_on_one_bad_checkpoint() {
    assert_eq!(parse_args_to_time(strings(&["8:00", "nine", "10:00", "11:00"])), None);
    assert_eq!(parse_args_to_time(strings(&["8:00", "9:00:30"])), None);
}

#[test]
fn parse_of_no_checkpoints_is_empty() {
    assert_eq!(parse_args_to_time(strings(&[])), Some(vec![]));
}

#[test]
fn parse_checkpoint_reads_hours_and_minutes() {
    assert_eq!(ClockTime::parse_checkpoint("23:59"), Some(ClockTime::from_hms(23, 59, 0)));
    assert_eq!(ClockTime::parse_checkpoint("07:05"), Some(ClockTime::from_hms(7, 5, 0)));
    assert_eq!(ClockTime::parse_checkpoint("0:00"), Some(ClockTime::from_hms(0, 0, 0)));
    assert_eq!(ClockTime::parse_checkpoint("7-05"), None);
    assert_eq!(ClockTime::parse_checkpoint(""), None);
}

#[test]
fn signed_duration_since_subtracts_times_of_day() {
    let start = ClockTime::from_hms(8, 15, 0);
    let end = ClockTime::from_hms(15, 45, 30);
    assert_eq!(end.signed_duration_since(&start).num_seconds(), 27030);
    assert_eq!(start.signed_duration_since(&end).num_seconds(), -27030);
}

#[test]
fn count_ignores_a_trailing_unpaired_time() {
    let total = count_work_time(vec![
        ClockTime::from_hms(9, 0, 0),
        ClockTime::from_hms(10, 30, 0),
        ClockTime::from_hms(23, 0, 0),
    ]);
    assert_eq!(total, WorkDuration::seconds(5400));
}

#[test]
fn count_of_no_times_is_zero() {
    assert_eq!(count_work_time(vec![]), WorkDuration::seconds(0));
}

#[test]
fn count_keeps_a_negative_pair_as_it_is() {
    let total = count_work_time(vec![
        ClockTime::from_hms(22, 0, 0),
        ClockTime::from_hms(6, 0, 0),
    ]);
    assert_eq!(total, WorkDuration::hours(-16));
}

#[test]
fn duration_parts_round_toward_zero() {
    let d = WorkDuration::seconds(3 * 3600 + 25 * 60 + 59);
    assert_eq!(d.num_hours(), 3);
    assert_eq!(d.num_minutes(), 205);
    let n = WorkDuration::seconds(-(3 * 3600 + 25 * 60 + 59));
    assert_eq!(n.num_hours(), -3);
    assert_eq!(n.num_minutes(), -205);
    assert_eq!(WorkDuration::hours(2).num_seconds(), 7200);
}

#[test]
fn report_for_one_pair() {
    assert_eq!(
        work_report(strings(&["8:00", "16:00"])),
        WorkReport::WorkTime { hours: 8, minutes: 0 }
    );
}

#[test]
fn report_for_two_pairs() {
    assert_eq!(
        work_report(strings(&["8:00", "15:00", "16:00", "17:00"])),
        WorkReport::WorkTime { hours: 8, minutes: 0 }
    );
}

#[test]
fn report_for_a_single_argument_is_invalid_input() {
    assert_eq!(work_report(strings(&["8:00"])), WorkReport::InvalidInput);
    assert_eq!(work_report(strings(&[])), WorkReport::InvalidInput);
}

#[test]
fn report_for_a_bad_checkpoint_is_parse_error() {
    assert_eq!(work_report(strings(&["8:00", "8:60"])), WorkReport::ParseError);
}

#[test]
fn report_splits_hours_and_minutes() {
    assert_eq!(
        work_report(strings(&["7:10", "15:55"])),
        WorkReport::WorkTime { hours: 8, minutes: 45 }
    );
    assert_eq!(
        work_report(strings(&["16:00", "15:30"])),
        WorkReport::WorkTime { hours: 0, minutes: -30 }
    );
}

#[test]
fn report_is_the_same_on_identical_arguments() {
    let args = strings(&["8:00", "12:15", "12:45", "17:20"]);
    let first = work_report(args.clone());
    let second = work_report(args);
    assert_eq!(first, second);
    assert_eq!(first, WorkReport::WorkTime { hours: 8, minutes: 50 });
}
