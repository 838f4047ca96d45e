use toa_ping::probe::{classify_outcome, ProbeEvent};

#[test]
fn readiness_without_error_is_success() {
    let o = classify_outcome(ProbeEvent::Ready { error_pending: false, elapsed_us: 12_345 })
        .unwrap();
    assert!(o.success);
    assert_eq!(o.elapsed_us, 12_345);
}

#[test]
fn a_refusal_fails_fast_with_its_short_elapsed_time() {
    // an active refusal arrives well before the timeout window
    let timeout_us = 1_000_000u64;
    let o = classify_outcome(ProbeEvent::Ready { error_pending: true, elapsed_us: 5_000 })
        .unwrap();
    assert!(!o.success);
    assert!(o.elapsed_us < timeout_us);
    assert_eq!(o.elapsed_us, 5_000);
}

#[test]
fn a_timeout_fails_with_the_full_window() {
    let timeout_us = 1_000_000u64;
    let o = classify_outcome(ProbeEvent::TimedOut { elapsed_us: timeout_us }).unwrap();
    assert!(!o.success);
    assert_eq!(o.elapsed_us, timeout_us);
}

#[test]
fn refusal_and_timeout_differ_by_elapsed_time_alone() {
    let refused = classify_outcome(ProbeEvent::Ready { error_pending: true, elapsed_us: 4_200 })
        .unwrap();
    let timed_out = classify_outcome(ProbeEvent::TimedOut { elapsed_us: 1_000_000 }).unwrap();
    assert_eq!(refused.success, timed_out.success);
    assert!(refused.elapsed_us < timed_out.elapsed_us);
}

#[test]
fn setup_failure_is_a_probe_error_with_the_call_named() {
    let e = classify_outcome(ProbeEvent::SetupFailed("permission denied".to_string()))
        .unwrap_err();
    assert_eq!(e.0, "socket:new permission denied");
}

#[test]
fn wait_failure_carries_the_underlying_message() {
    let e = classify_outcome(ProbeEvent::WaitFailed("interrupted".to_string())).unwrap_err();
    assert_eq!(e.0, "interrupted");
}
