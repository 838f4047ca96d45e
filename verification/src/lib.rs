//! A TCP connection-latency probe library.
//!
//! The library holds the verified core of a small ping-like tool: the
//! destination-resolution policy (candidate partitioning by address family,
//! family selection, port defaulting), the classification of one timed
//! non-blocking connect attempt, the running statistics over attempts, and
//! the state machine that drives a count-bounded or unbounded run.
//! Socket and signal plumbing lives outside the library and feeds it plain
//! values.

pub mod addr;
pub mod cli;
pub mod probe;
pub mod render;
pub mod runloop;
pub mod stats;

pub use addr::{CandidateSet, Destination, Family, IpVal, ResolveError};
pub use cli::{Flags, Options, ParseError, Parser, Protocol};
pub use probe::{ProbeError, ProbeEvent, ProbeOutcome};
pub use runloop::{Action, Event, Phase, ProbeLoop, RunConfig};
pub use stats::Stats;
