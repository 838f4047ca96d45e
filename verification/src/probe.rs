//! Classification of one timed, non-blocking connect attempt.
//!
//! The socket work itself — creating a stream socket in the
//! destination's family, switching it to non-blocking mode, initiating
//! the connect, and waiting on a readiness-multiplexing primitive for
//! writability or an error condition — happens outside the library.
//! What it observed arrives here as a plain event, and this module
//! decides the attempt's outcome: readiness without a pending error is
//! the one success; a terminal connect error (a refusal) and a timeout
//! are both failures, told apart only by their elapsed time; a
//! system-level failure of the setup or of the wait itself is a
//! distinguishable error class, not an outcome.

use vstd::prelude::*;

verus! {

/// What one attempt yielded: whether it succeeded, and the wall-clock
/// time in microseconds from connect-initiation to the decision. The
/// time is populated on failure too: a refusal carries the short time
/// it took, a timeout the full window that was waited.
#[derive(Clone, Copy, Debug, PartialEq, Eq, Structural)]
pub struct ProbeOutcome {
    pub success: bool,
    pub elapsed_us: u64,
}

/// A socket- or system-level failure, distinct from a timeout, with
/// the underlying message.
#[derive(Clone, Debug)]
pub struct ProbeError(pub String);

/// What the socket work observed for one attempt.
#[derive(Clone, Debug)]
pub enum ProbeEvent {
    /// Creating the socket, switching it to non-blocking mode or
    /// initiating the connect failed at the system level; the payload
    /// is the underlying message.
    SetupFailed(String),
    /// The readiness-multiplexing call itself failed; the payload is
    /// the underlying message.
    WaitFailed(String),
    /// The socket became ready before the timeout, `elapsed_us` after
    /// connect-initiation. `error_pending` reports a terminal connect
    /// error on the socket (an active refusal) instead of an
    /// established connection.
    Ready { error_pending: bool, elapsed_us: u64 },
    /// The wait elapsed with no readiness; `elapsed_us` is the
    /// observed wall-clock time since connect-initiation, the full
    /// timeout window.
    TimedOut { elapsed_us: u64 },
}

/// The outcome the classification assigns to each event.
pub open spec fn spec_classify(ev: ProbeEvent) -> Result<ProbeOutcome, Seq<char>> {
    match ev {
        ProbeEvent::SetupFailed(m) => Result::Err("socket:new "@ + m@),
        ProbeEvent::WaitFailed(m) => Result::Err(m@),
        ProbeEvent::Ready { error_pending, elapsed_us } => Result::Ok(
            ProbeOutcome { success: !error_pending, elapsed_us },
        ),
        ProbeEvent::TimedOut { elapsed_us } => Result::Ok(
            ProbeOutcome { success: false, elapsed_us },
        ),
    }
}

/// Decide one attempt's outcome from what the socket work observed.
///
/// Readiness with no pending error is the only success. A refusal and
/// a timeout are both `success == false`, and keep their observed
/// elapsed time, so the two failure shapes stay distinguishable by
/// time alone. Setup and wait failures become a `ProbeError` carrying
/// the underlying message; a setup failure is prefixed with the call
/// that failed.
pub fn classify_outcome(ev: ProbeEvent) -> (r: Result<ProbeOutcome, ProbeError>)
    ensures
        match spec_classify(ev) {
            Result::Ok(o) => r matches Ok(ro) && ro == o,
            Result::Err(m) => r matches Err(e) && e.0@ == m,
        },
        // the elapsed time of the event is never altered
        ev matches ProbeEvent::Ready { elapsed_us, .. } ==> r matches Ok(o) && o.elapsed_us
            == elapsed_us,
        ev matches ProbeEvent::TimedOut { elapsed_us } ==> r matches Ok(o) && o.elapsed_us
            == elapsed_us,
{
    match ev {
        ProbeEvent::SetupFailed(m) => {
            let mut msg = String::new();
            msg.append("socket:new ");
            msg.append(m.as_str());
            Err(ProbeError(msg))
        },
        ProbeEvent::WaitFailed(m) => Err(ProbeError(m)),
        ProbeEvent::Ready { error_pending, elapsed_us } => Ok(
            ProbeOutcome { success: !error_pending, elapsed_us },
        ),
        ProbeEvent::TimedOut { elapsed_us } => Ok(ProbeOutcome { success: false, elapsed_us }),
    }
}

} // verus!
