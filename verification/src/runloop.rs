//! The run itself, as a state machine.
//!
//! One logical thread of control drives a run: resolve the
//! destination, then probe at a fixed interval, fold each outcome into
//! the statistics, and report. The blocking work — the name lookup,
//! the connect-and-wait, the inter-attempt sleep, and the delivery of
//! an interrupt — happens outside the library; each of its completions
//! is handed to [`ProbeLoop::step`] as an event, and the returned
//! action says what to do next. The decisions, the per-attempt lines
//! and the summaries are all decided and proved here.

use vstd::prelude::*;
use crate::addr::{
    Destination,
    Family,
    IpVal,
    ResolveError,
    resolve_destination,
    spec_ip_text,
    spec_resolve,
};
use crate::probe::{ProbeError, ProbeOutcome};
use crate::render::{spec_dec, spec_ms3, u64_to_dec, us_to_ms3};
use crate::stats::{record_spec, spec_summary, Stats};

verus! {

/// The immutable configuration of one run.
#[derive(Clone, Copy, Debug)]
pub struct RunConfig {
    /// Attempt limit; meaningless when `forever` is set.
    pub number: u64,
    /// Keep probing with no attempt limit.
    pub forever: bool,
    /// Inter-attempt sleep in milliseconds.
    pub interval_ms: u64,
    /// Per-attempt timeout in milliseconds.
    pub timeout_ms: u64,
    /// Requested address family, or `Unspecified` for none.
    pub family_pref: Family,
}

/// Where the run stands.
#[derive(Clone, Copy, Debug, PartialEq, Eq, Structural)]
pub enum Phase {
    Idle,
    Resolving,
    Probing,
    Waiting,
    Done,
    Interrupted,
}

/// A completion of outside work, handed to the machine.
pub enum Event {
    /// Begin the run.
    Start,
    /// The name lookup finished: the candidate addresses in resolver
    /// order, or the destination text that could not be looked up at
    /// all.
    Resolved(Result<Vec<Destination>, String>),
    /// The connect attempt finished, classified.
    ProbeFinished(Result<ProbeOutcome, ProbeError>),
    /// The inter-attempt sleep finished.
    SleepFinished,
    /// An asynchronous stop/report request arrived.
    Interrupt,
}

/// What the caller must do next.
pub enum Action {
    /// Perform the name lookup for the run's destination.
    StartResolve,
    /// Run one connect attempt against `dest`, bounded by
    /// `timeout_ms`.
    LaunchProbe { dest: Destination, timeout_ms: u64 },
    /// Print the per-attempt line, then sleep `interval_ms` before the
    /// next attempt.
    PrintThenSleep { line: String, interval_ms: u64 },
    /// Print the per-attempt line and the final summary, then exit
    /// with `exit_code`.
    PrintThenReport { line: String, summary: String, exit_code: i32 },
    /// Print the final summary, then exit with `exit_code`.
    Report { summary: String, exit_code: i32 },
    /// Print the terminal message — no statistics were produced — and
    /// exit with `exit_code`.
    Fail { message: String, exit_code: i32 },
    /// Print the best-effort summary, then let the interrupt take the
    /// process down.
    InterruptReport { summary: String },
    /// The event is not expected in the current phase; do nothing.
    Ignore,
}

/// The stop condition: the attempt limit is reached and the run is not
/// unbounded. `i` counts the attempts completed.
pub open spec fn spec_stopped(cfg: RunConfig, i: int) -> bool {
    !cfg.forever && i >= cfg.number
}

/// What one classified attempt feeds into the statistics: a success
/// keeps its time; a failure or a probe error counts as a failed
/// attempt (an error's time is recorded as zero — the statistics
/// ignore a failure's time either way).
pub open spec fn spec_recorded(res: Result<ProbeOutcome, ProbeError>) -> (bool, u64) {
    match res {
        Result::Ok(o) => (o.success, o.elapsed_us),
        Result::Err(_) => (false, 0),
    }
}

/// The reply part of a per-attempt line: the address on success, a
/// fixed no-reply text on failure, the error message inline on a probe
/// error.
pub open spec fn spec_reply_text(res: Result<ProbeOutcome, ProbeError>, ip: IpVal) -> Seq<char> {
    match res {
        Result::Ok(o) => if o.success {
            "Reply from "@ + spec_ip_text(ip)
        } else {
            "No reply"@
        },
        Result::Err(e) => e.0@,
    }
}

/// One per-attempt line: index, reply text, and the attempt's time in
/// milliseconds to three decimal places.
pub open spec fn spec_attempt_line(idx: int, reply: Seq<char>, us: int) -> Seq<char> {
    "    "@ + spec_dec(idx) + ": "@ + reply + " - rto="@ + spec_ms3(us) + "ms"@
}

/// The terminal message of a failed resolution.
pub open spec fn spec_resolve_error_text(e: ResolveError) -> Seq<char> {
    match e {
        ResolveError::ResolutionError => "Failed to resolve anything from destination :("@,
        ResolveError::FamilyUnavailable(f) => if f == Family::IPv6 {
            "IPv6 address is not found. Cannot ping with this version >.<"@
        } else {
            "IPv4 address is not found. Cannot ping with this version >.<"@
        },
    }
}

/// Render one per-attempt line.
pub fn attempt_line(idx: u64, reply: &str, us: u64) -> (r: String)
    ensures
        r@ == spec_attempt_line(idx as int, reply@, us as int),
{
    let mut s = String::new();
    s.append("    ");
    let p = u64_to_dec(idx);
    s.append(p.as_str());
    s.append(": ");
    s.append(reply);
    s.append(" - rto=");
    let p = us_to_ms3(us);
    s.append(p.as_str());
    s.append("ms");
    proof {
        assert(s@ =~= spec_attempt_line(idx as int, reply@, us as int));
    }
    s
}

/// Render the terminal message of a failed resolution. The resolver
/// only ever reports the two real families as unavailable.
pub fn resolve_error_text(e: &ResolveError) -> (r: &'static str)
    ensures
        r@ == spec_resolve_error_text(*e),
{
    match e {
        ResolveError::ResolutionError => "Failed to resolve anything from destination :(",
        ResolveError::FamilyUnavailable(f) => {
            if *f == Family::IPv6 {
                "IPv6 address is not found. Cannot ping with this version >.<"
            } else {
                "IPv4 address is not found. Cannot ping with this version >.<"
            }
        },
    }
}

/// The state machine of one run.
pub struct ProbeLoop {
    pub cfg: RunConfig,
    pub phase: Phase,
    /// Attempts completed so far.
    pub idx: u64,
    /// The selected destination, set when resolution succeeds.
    pub dest: Option<Destination>,
    /// The run's effective family, set when resolution succeeds.
    pub family: Family,
    pub stats: Stats,
}

impl ProbeLoop {
    /// The invariant every reachable machine state satisfies: the
    /// statistics are well formed, count exactly the completed
    /// attempts, and a probing or waiting machine has a destination.
    pub open spec fn wf(&self) -> bool {
        &&& self.stats.wf()
        &&& self.stats@.num == self.idx as int
        &&& (self.phase == Phase::Probing || self.phase == Phase::Waiting) ==> self.dest is Some
    }

    /// A machine at rest, before `Event::Start`.
    pub fn new(cfg: RunConfig) -> (m: ProbeLoop)
        ensures
            m.wf(),
            m.phase == Phase::Idle,
            m.idx == 0,
            m.stats@ == crate::stats::init_model(),
            m.cfg == cfg,
            m.dest is None,
    {
        ProbeLoop {
            cfg,
            phase: Phase::Idle,
            idx: 0,
            dest: None,
            family: Family::Unspecified,
            stats: Stats::new(),
        }
    }

    /// Render the current statistics, for the asynchronous interrupt
    /// path: a pure read of the attempts folded in so far.
    pub fn summary_now(&self) -> (r: String)
        requires
            self.wf(),
        ensures
            r@ == spec_summary(self.stats@),
    {
        self.stats.summary()
    }

    /// Drive the machine by one event.
    ///
    /// Start moves an idle machine to resolving. A resolution outcome
    /// either selects the destination and launches the first attempt
    /// (or reports at once when the limit is already reached), or ends
    /// the run with the resolution error and exit code 1. A finished
    /// attempt is folded into the statistics and printed; the machine
    /// then sleeps, or — once the limit is reached — reports, with
    /// exit code 0 exactly when every attempt succeeded. A finished
    /// sleep launches the next attempt. An interrupt while probing or
    /// waiting reports the attempts completed so far and ends the run.
    /// Any event outside its phase is ignored and changes nothing.
    pub fn step(&mut self, ev: Event) -> (a: Action)
        requires
            old(self).wf(),
            old(self).idx < u64::MAX,
        ensures
            final(self).wf(),
            final(self).cfg == old(self).cfg,
            // Start
            old(self).phase == Phase::Idle ==> (ev matches Event::Start ==> {
                &&& final(self).phase == Phase::Resolving
                &&& a matches Action::StartResolve
                &&& final(self).stats == old(self).stats
                &&& final(self).idx == old(self).idx
            }),
            // Resolution outcome: lookup failed outright
            old(self).phase == Phase::Resolving ==> (ev matches Event::Resolved(Err(s)) ==> {
                &&& final(self).phase == Phase::Done
                &&& a matches Action::Fail { message, exit_code } && message@
                    == "Invalid destination "@ + s@ && exit_code == 1
            }),
            // Resolution outcome: candidate list
            old(self).phase == Phase::Resolving ==> (ev matches Event::Resolved(Ok(addrs))
                ==> match spec_resolve(addrs@, old(self).cfg.family_pref) {
                Result::Ok((d, f)) => {
                    &&& final(self).dest == Option::Some(d)
                    &&& final(self).family == f
                    &&& final(self).stats == old(self).stats
                    &&& final(self).idx == old(self).idx
                    &&& if spec_stopped(old(self).cfg, old(self).idx as int) {
                        &&& final(self).phase == Phase::Done
                        &&& a matches Action::Report { summary, exit_code } && summary@
                            == spec_summary(old(self).stats@) && exit_code == (
                        if old(self).stats@.num == old(self).stats@.num_success {
                            0int
                        } else {
                            1int
                        })
                    } else {
                        &&& final(self).phase == Phase::Probing
                        &&& a matches Action::LaunchProbe { dest, timeout_ms } && dest == d
                            && timeout_ms == old(self).cfg.timeout_ms
                    }
                },
                Result::Err(e) => {
                    &&& final(self).phase == Phase::Done
                    &&& final(self).stats == old(self).stats
                    &&& a matches Action::Fail { message, exit_code } && message@
                        == spec_resolve_error_text(e) && exit_code == 1
                },
            }),
            // A finished attempt
            old(self).phase == Phase::Probing ==> (ev matches Event::ProbeFinished(res) ==> {
                let (ok, us) = spec_recorded(res);
                let line = spec_attempt_line(
                    old(self).idx as int,
                    spec_reply_text(res, old(self).dest->0.ip),
                    us as int,
                );
                &&& final(self).stats@ == record_spec(old(self).stats@, ok, us as int)
                &&& final(self).idx == old(self).idx + 1
                &&& final(self).dest == old(self).dest
                &&& if spec_stopped(old(self).cfg, old(self).idx + 1) {
                    &&& final(self).phase == Phase::Done
                    &&& a matches Action::PrintThenReport { line: l, summary, exit_code } && l@
                        == line && summary@ == spec_summary(final(self).stats@) && exit_code == (
                    if final(self).stats@.num == final(self).stats@.num_success {
                        0int
                    } else {
                        1int
                    })
                } else {
                    &&& final(self).phase == Phase::Waiting
                    &&& a matches Action::PrintThenSleep { line: l, interval_ms } && l@ == line
                        && interval_ms == old(self).cfg.interval_ms
                }
            }),
            // A finished sleep
            old(self).phase == Phase::Waiting ==> (ev matches Event::SleepFinished ==> {
                &&& final(self).phase == Phase::Probing
                &&& final(self).stats == old(self).stats
                &&& final(self).idx == old(self).idx
                &&& a matches Action::LaunchProbe { dest, timeout_ms } && dest == old(self).dest->0
                    && timeout_ms == old(self).cfg.timeout_ms
            }),
            // An interrupt mid-run: report exactly the attempts
            // completed so far
            (old(self).phase == Phase::Probing || old(self).phase == Phase::Waiting) ==> (ev
                matches Event::Interrupt ==> {
                &&& final(self).phase == Phase::Interrupted
                &&& final(self).stats == old(self).stats
                &&& final(self).idx == old(self).idx
                &&& a matches Action::InterruptReport { summary } && summary@ == spec_summary(
                    old(self).stats@,
                )
            }),
            // Anything else changes nothing
            ({
                &&& !(old(self).phase == Phase::Idle && (ev matches Event::Start))
                &&& !(old(self).phase == Phase::Resolving && (ev matches Event::Resolved(_)))
                &&& !(old(self).phase == Phase::Probing && (ev matches Event::ProbeFinished(_)))
                &&& !(old(self).phase == Phase::Waiting && (ev matches Event::SleepFinished))
                &&& !((old(self).phase == Phase::Probing || old(self).phase == Phase::Waiting) && (
                ev matches Event::Interrupt))
            }) ==> *final(self) == *old(self) && (a matches Action::Ignore),
    {
        match ev {
            Event::Start => {
                if self.phase == Phase::Idle {
                    self.phase = Phase::Resolving;
                    Action::StartResolve
                } else {
                    Action::Ignore
                }
            },
            Event::Resolved(res) => {
                if self.phase != Phase::Resolving {
                    return Action::Ignore;
                }
                match res {
                    Err(s) => {
                        self.phase = Phase::Done;
                        let mut message = String::new();
                        message.append("Invalid destination ");
                        message.append(s.as_str());
                        Action::Fail { message, exit_code: 1 }
                    },
                    Ok(addrs) => {
                        match resolve_destination(&addrs, self.cfg.family_pref) {
                            Ok((d, f)) => {
                                self.dest = Some(d);
                                self.family = f;
                                if !self.cfg.forever && self.idx >= self.cfg.number {
                                    self.phase = Phase::Done;
                                    let summary = self.stats.summary();
                                    let exit_code: i32 = if self.stats.is_ok() {
                                        0
                                    } else {
                                        1
                                    };
                                    Action::Report { summary, exit_code }
                                } else {
                                    self.phase = Phase::Probing;
                                    Action::LaunchProbe {
                                        dest: d,
                                        timeout_ms: self.cfg.timeout_ms,
                                    }
                                }
                            },
                            Err(e) => {
                                self.phase = Phase::Done;
                                let message = resolve_error_text(&e).to_owned();
                                Action::Fail { message, exit_code: 1 }
                            },
                        }
                    },
                }
            },
            Event::ProbeFinished(res) => {
                if self.phase != Phase::Probing {
                    return Action::Ignore;
                }
                let (ok, us, reply) = match res {
                    Ok(o) => {
                        if o.success {
                            let mut t = String::new();
                            t.append("Reply from ");
                            let ip_text = self.dest.unwrap().ip.to_text();
                            t.append(ip_text.as_str());
                            (true, o.elapsed_us, t)
                        } else {
                            (false, o.elapsed_us, "No reply".to_owned())
                        }
                    },
                    Err(e) => (false, 0u64, e.0),
                };
                let line = attempt_line(self.idx, reply.as_str(), us);
                self.stats.add_ping(ok, us);
                self.idx = self.idx + 1;
                if !self.cfg.forever && self.idx >= self.cfg.number {
                    self.phase = Phase::Done;
                    let summary = self.stats.summary();
                    let exit_code: i32 = if self.stats.is_ok() {
                        0
                    } else {
                        1
                    };
                    Action::PrintThenReport { line, summary, exit_code }
                } else {
                    self.phase = Phase::Waiting;
                    Action::PrintThenSleep { line, interval_ms: self.cfg.interval_ms }
                }
            },
            Event::SleepFinished => {
                if self.phase != Phase::Waiting {
                    return Action::Ignore;
                }
                self.phase = Phase::Probing;
                Action::LaunchProbe { dest: self.dest.unwrap(), timeout_ms: self.cfg.timeout_ms }
            },
            Event::Interrupt => {
                if self.phase == Phase::Probing || self.phase == Phase::Waiting {
                    self.phase = Phase::Interrupted;
                    let summary = self.stats.summary();
                    Action::InterruptReport { summary }
                } else {
                    Action::Ignore
                }
            },
        }
    }
}

} // verus!
