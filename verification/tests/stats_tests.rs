use toa_ping::Stats;

#[test]
fn fresh_accumulator_is_fully_successful() {
    let s = Stats::new();
    assert!(s.is_ok());
    assert_eq!(s.num(), 0);
    assert_eq!(s.num_success(), 0);
}

#[test]
fn fresh_minimum_is_a_sentinel_larger_than_any_real_value() {
    let mut s = Stats::new();
    assert_eq!(s.min_time(), u64::MAX);
    assert_eq!(s.max_time(), 0);
    s.add_ping(true, 123_456);
    assert_eq!(s.min_time(), 123_456);
    assert_eq!(s.max_time(), 123_456);
}

#[test]
fn three_outcomes_aggregate_exactly() {
    // outcomes: success 10 ms, failure, success 30 ms
    let mut s = Stats::new();
    s.add_ping(true, 10_000);
    s.add_ping(false, 0);
    s.add_ping(true, 30_000);
    assert_eq!(s.num(), 3);
    assert_eq!(s.num_success(), 2);
    assert_eq!(s.min_time(), 10_000);
    assert_eq!(s.max_time(), 30_000);
    assert_eq!(s.sum_time(), 40_000);
    assert!(!s.is_ok());
    let text = s.summary();
    assert_eq!(
        text,
        "\nSummary:\n    3 pings sent.\n    2 succesful. Success Rate: 66.67%\nRTT statics:\n    min=10.000ms, average=20.000ms, max=30.000ms\n               "
    );
}

#[test]
fn order_of_recording_does_not_change_the_aggregates() {
    let outcomes = [(true, 10_000u64), (false, 0u64), (true, 30_000u64), (true, 20_000u64)];
    let mut forward = Stats::new();
    for (ok, t) in outcomes.iter() {
        forward.add_ping(*ok, *t);
    }
    let mut backward = Stats::new();
    for (ok, t) in outcomes.iter().rev() {
        backward.add_ping(*ok, *t);
    }
    assert_eq!(forward.num(), backward.num());
    assert_eq!(forward.num_success(), backward.num_success());
    assert_eq!(forward.min_time(), backward.min_time());
    assert_eq!(forward.max_time(), backward.max_time());
    assert_eq!(forward.sum_time(), backward.sum_time());
    assert_eq!(forward.summary(), backward.summary());
}

#[test]
fn all_failures_render_the_no_statistics_note() {
    let mut s = Stats::new();
    s.add_ping(false, 0);
    s.add_ping(false, 0);
    assert!(!s.is_ok());
    let text = s.summary();
    assert_eq!(
        text,
        "\nSummary:\n    2 pings sent.\n    0 succesful. Rate: 0%\nRTT statics:\n    Was unable to collect any statics :(\n               "
    );
}

#[test]
fn all_successes_report_a_full_rate() {
    let mut s = Stats::new();
    s.add_ping(true, 1_500);
    s.add_ping(true, 2_500);
    assert!(s.is_ok());
    let text = s.summary();
    assert_eq!(
        text,
        "\nSummary:\n    2 pings sent.\n    2 succesful. Success Rate: 100.00%\nRTT statics:\n    min=1.500ms, average=2.000ms, max=2.500ms\n               "
    );
}

#[test]
fn failures_contribute_no_time() {
    let mut s = Stats::new();
    s.add_ping(false, 99_999);
    assert_eq!(s.min_time(), u64::MAX);
    assert_eq!(s.max_time(), 0);
    assert_eq!(s.sum_time(), 0);
    assert_eq!(s.num(), 1);
    assert_eq!(s.num_success(), 0);
}

#[test]
fn success_rate_rounds_half_up() {
    // one success in eight attempts: 12.50 % exactly
    let mut s = Stats::new();
    s.add_ping(true, 1_000);
    for _ in 0..7 {
        s.add_ping(false, 0);
    }
    let text = s.summary();
    assert!(text.contains("Success Rate: 12.50%"));
}

#[test]
fn success_rate_rounds_the_half_upward() {
    // one success in thirty-two attempts: 3.125 % exactly, shown 3.13
    let mut s = Stats::new();
    s.add_ping(true, 1_000);
    for _ in 0..31 {
        s.add_ping(false, 0);
    }
    let text = s.summary();
    assert!(text.contains("Success Rate: 3.13%"));
}

#[test]
fn average_rounds_the_half_microsecond_upward() {
    // 1 us and 2 us: the true average of 1.5 us is shown as 0.002 ms
    let mut s = Stats::new();
    s.add_ping(true, 1);
    s.add_ping(true, 2);
    let text = s.summary();
    assert!(text.contains("average=0.002ms"));
    assert!(text.contains("min=0.001ms"));
    assert!(text.contains("max=0.002ms"));
}
