use toa_ping::addr::{Destination, IpVal};
use toa_ping::probe::{ProbeError, ProbeOutcome};
use toa_ping::runloop::{Action, Event, Phase, ProbeLoop, RunConfig};
use toa_ping::Family;

fn cfg(number: u64) -> RunConfig {
    RunConfig {
        number,
        forever: false,
        interval_ms: 500,
        timeout_ms: 1000,
        family_pref: Family::Unspecified,
    }
}

fn localhost() -> Destination {
    Destination { ip: IpVal::V4(0x7F000001), port: 80 }
}

fn start_and_resolve(m: &mut ProbeLoop, addrs: Vec<Destination>) -> Action {
    let a = m.step(Event::Start);
    assert!(matches!(a, Action::StartResolve));
    m.step(Event::Resolved(Ok(addrs)))
}

#[test]
fn a_single_successful_attempt_reports_exit_zero() {
    let mut m = ProbeLoop::new(cfg(1));
    let a = start_and_resolve(&mut m, vec![localhost()]);
    match a {
        Action::LaunchProbe { dest, timeout_ms } => {
            assert_eq!(dest, localhost());
            assert_eq!(timeout_ms, 1000);
        },
        _ => panic!("expected a probe launch"),
    }
    let a = m.step(Event::ProbeFinished(Ok(ProbeOutcome { success: true, elapsed_us: 10_000 })));
    match a {
        Action::PrintThenReport { line, summary, exit_code } => {
            assert_eq!(line, "    0: Reply from 127.0.0.1 - rto=10.000ms");
            assert!(summary.contains("1 pings sent."));
            assert!(summary.contains("1 succesful. Success Rate: 100.00%"));
            assert_eq!(exit_code, 0);
        },
        _ => panic!("expected the final report"),
    }
    assert_eq!(m.phase, Phase::Done);
}

#[test]
fn a_failed_attempt_reports_exit_one() {
    let mut m = ProbeLoop::new(cfg(1));
    start_and_resolve(&mut m, vec![localhost()]);
    let a = m.step(Event::ProbeFinished(Ok(ProbeOutcome {
        success: false,
        elapsed_us: 1_000_000,
    })));
    match a {
        Action::PrintThenReport { line, summary, exit_code } => {
            assert_eq!(line, "    0: No reply - rto=1000.000ms");
            assert!(summary.contains("0 succesful. Rate: 0%"));
            assert_eq!(exit_code, 1);
        },
        _ => panic!("expected the final report"),
    }
}

#[test]
fn attempts_are_separated_by_sleeps_and_indexed_in_order() {
    let mut m = ProbeLoop::new(cfg(2));
    start_and_resolve(&mut m, vec![localhost()]);
    let a = m.step(Event::ProbeFinished(Ok(ProbeOutcome { success: true, elapsed_us: 2_500 })));
    match a {
        Action::PrintThenSleep { line, interval_ms } => {
            assert_eq!(line, "    0: Reply from 127.0.0.1 - rto=2.500ms");
            assert_eq!(interval_ms, 500);
        },
        _ => panic!("expected a sleep before the next attempt"),
    }
    assert_eq!(m.phase, Phase::Waiting);
    let a = m.step(Event::SleepFinished);
    assert!(matches!(a, Action::LaunchProbe { .. }));
    let a = m.step(Event::ProbeFinished(Ok(ProbeOutcome { success: true, elapsed_us: 7_500 })));
    match a {
        Action::PrintThenReport { line, summary, exit_code } => {
            assert_eq!(line, "    1: Reply from 127.0.0.1 - rto=7.500ms");
            assert!(summary.contains("2 pings sent."));
            assert!(summary.contains("min=2.500ms, average=5.000ms, max=7.500ms"));
            assert_eq!(exit_code, 0);
        },
        _ => panic!("expected the final report"),
    }
}

#[test]
fn a_probe_error_is_recorded_and_shown_inline() {
    let mut m = ProbeLoop::new(cfg(2));
    start_and_resolve(&mut m, vec![localhost()]);
    let a = m.step(Event::ProbeFinished(Err(ProbeError("socket:new no buffers".to_string()))));
    match a {
        Action::PrintThenSleep { line, .. } => {
            assert_eq!(line, "    0: socket:new no buffers - rto=0.000ms");
        },
        _ => panic!("expected the run to continue"),
    }
    // the error counted as a failed attempt
    assert_eq!(m.stats.num(), 1);
    assert_eq!(m.stats.num_success(), 0);
    assert_eq!(m.phase, Phase::Waiting);
}

#[test]
fn interrupting_mid_run_reports_exactly_the_completed_attempts() {
    let mut m = ProbeLoop::new(cfg(4));
    start_and_resolve(&mut m, vec![localhost()]);
    m.step(Event::ProbeFinished(Ok(ProbeOutcome { success: true, elapsed_us: 10_000 })));
    m.step(Event::SleepFinished);
    m.step(Event::ProbeFinished(Ok(ProbeOutcome { success: true, elapsed_us: 30_000 })));
    let a = m.step(Event::Interrupt);
    match a {
        Action::InterruptReport { summary } => {
            assert!(summary.contains("2 pings sent."));
            assert!(summary.contains("2 succesful. Success Rate: 100.00%"));
            assert!(summary.contains("min=10.000ms, average=20.000ms, max=30.000ms"));
        },
        _ => panic!("expected the best-effort summary"),
    }
    assert_eq!(m.phase, Phase::Interrupted);
    // the machine does not resume
    let a = m.step(Event::SleepFinished);
    assert!(matches!(a, Action::Ignore));
}

#[test]
fn resolution_of_nothing_fails_the_run() {
    let mut m = ProbeLoop::new(cfg(4));
    let a = start_and_resolve(&mut m, vec![]);
    match a {
        Action::Fail { message, exit_code } => {
            assert_eq!(message, "Failed to resolve anything from destination :(");
            assert_eq!(exit_code, 1);
        },
        _ => panic!("expected a terminal resolution error"),
    }
    assert_eq!(m.phase, Phase::Done);
}

#[test]
fn an_unresolvable_destination_text_fails_the_run() {
    let mut m = ProbeLoop::new(cfg(4));
    m.step(Event::Start);
    let a = m.step(Event::Resolved(Err("no.such.host.example".to_string())));
    match a {
        Action::Fail { message, exit_code } => {
            assert_eq!(message, "Invalid destination no.such.host.example");
            assert_eq!(exit_code, 1);
        },
        _ => panic!("expected a terminal resolution error"),
    }
}

#[test]
fn a_family_mismatch_fails_the_run_before_any_probe() {
    let mut m = ProbeLoop::new(RunConfig { family_pref: Family::IPv4, ..cfg(4) });
    let a = start_and_resolve(&mut m, vec![Destination { ip: IpVal::V6(1), port: 80 }]);
    match a {
        Action::Fail { message, exit_code } => {
            assert_eq!(message, "IPv4 address is not found. Cannot ping with this version >.<");
            assert_eq!(exit_code, 1);
        },
        _ => panic!("expected a terminal family error"),
    }
    assert_eq!(m.stats.num(), 0);
}

#[test]
fn the_resolved_port_is_defaulted_before_probing() {
    let mut m = ProbeLoop::new(cfg(1));
    let a = start_and_resolve(&mut m, vec![Destination { ip: IpVal::V4(0x7F000001), port: 0 }]);
    match a {
        Action::LaunchProbe { dest, .. } => assert_eq!(dest.port, 80),
        _ => panic!("expected a probe launch"),
    }
}

#[test]
fn a_zero_attempt_limit_reports_at_once_with_exit_zero() {
    let mut m = ProbeLoop::new(cfg(0));
    let a = start_and_resolve(&mut m, vec![localhost()]);
    match a {
        Action::Report { summary, exit_code } => {
            assert!(summary.contains("0 pings sent."));
            assert_eq!(exit_code, 0);
        },
        _ => panic!("expected an immediate report"),
    }
}

#[test]
fn events_outside_their_phase_are_ignored() {
    let mut m = ProbeLoop::new(cfg(4));
    assert!(matches!(m.step(Event::SleepFinished), Action::Ignore));
    assert!(matches!(m.step(Event::Interrupt), Action::Ignore));
    m.step(Event::Start);
    assert!(matches!(m.step(Event::Start), Action::Ignore));
    assert_eq!(m.phase, Phase::Resolving);
}

#[test]
fn forever_mode_never_reaches_the_limit() {
    let mut m = ProbeLoop::new(RunConfig { forever: true, ..cfg(1) });
    start_and_resolve(&mut m, vec![localhost()]);
    for i in 0..5u64 {
        let a = m.step(Event::ProbeFinished(Ok(ProbeOutcome {
            success: true,
            elapsed_us: 1_000,
        })));
        assert!(matches!(a, Action::PrintThenSleep { .. }));
        assert_eq!(m.stats.num(), i + 1);
        m.step(Event::SleepFinished);
    }
    assert_eq!(m.phase, Phase::Probing);
}
