use addition_drill::stats::Stats;

#[test]
fn new_stats_start_at_zero_correct() {
    let stats = Stats::new(10);
    assert_eq!(stats.all, 10);
    assert_eq!(stats.correct, 0);
}

#[test]
fn increment_correct_counts_up() {
    let mut stats = Stats::new(2);
    stats.increment_correct();
    assert_eq!(stats.correct, 1);
    stats.increment_correct();
    assert_eq!(stats.correct, 2);
}

#[test]
fn record_round_updates_exactly_on_a_match() {
    let mut stats = Stats::new(3);
    assert!(stats.record_round(7, 7));
    assert_eq!(stats.correct, 1);
    assert!(!stats.record_round(7, 6));
    assert_eq!(stats.correct, 1);
    assert!(stats.record_round(0, 0));
    assert_eq!(stats.correct, 2);
    assert_eq!(stats.all, 3);
}

#[test]
fn percentages_are_truncated_to_hundredths() {
    let mut stats = Stats::new(3);
    stats.increment_correct();
    assert_eq!(stats.percent_correct_hundredths(), 3333);
    assert_eq!(stats.percent_correct_string(), "33.33");
    stats.increment_correct();
    assert_eq!(stats.percent_correct_hundredths(), 6666);
    assert_eq!(stats.percent_correct_string(), "66.66");
    stats.increment_correct();
    assert_eq!(stats.percent_correct_hundredths(), 10000);
    assert_eq!(stats.percent_correct_string(), "100.00");
}

#[test]
fn zero_rounds_report_zero_percent() {
    let stats = Stats::new(0);
    assert_eq!(stats.percent_correct_hundredths(), 0);
    assert_eq!(stats.percent_correct_string(), "0.00");
}

#[test]
fn no_correct_answers_report_zero_percent() {
    let stats = Stats::new(5);
    assert_eq!(stats.percent_correct_string(), "0.00");
}
