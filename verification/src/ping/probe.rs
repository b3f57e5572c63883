//! Judging one connection attempt.

use crate::ping::stats::ProbeOutcome;
use vstd::prelude::*;
use vstd::string::*;

verus! {

/// What an attempt to connect came to.
#[derive(Debug)]
pub enum Connect {
    /// The connection was made.
    Established,
    /// Nothing answered before the time was up.
    TimedOut,
    /// The attempt failed for another reason, given in words.
    Failed(String),
}

/// A failure that ends the run.
#[derive(Debug)]
pub enum ProbeError {
    /// No socket could be made.
    Setup(String),
    /// The connection failed, and not because the time was up.
    Connection(String),
}

impl ProbeError {
    /// The failure in words.
    pub open spec fn spec_message(&self) -> Seq<char> {
        match self {
            ProbeError::Setup(reason) => reason@,
            ProbeError::Connection(reason) => reason@,
        }
    }

    /// The failure in words, as the system gave them.
    pub fn message(&self) -> (text: &str)
        ensures
            text@ == self.spec_message(),
    {
        match self {
            ProbeError::Setup(reason) => reason.as_str(),
            ProbeError::Connection(reason) => reason.as_str(),
        }
    }
}

/// Nanoseconds in a second.
pub const NANOS_PER_SECOND: u64 = 1_000_000_000;

/// A time of `secs` seconds and `subsec_nanos` nanoseconds, in nanoseconds.
pub open spec fn nanos_of(secs: u64, subsec_nanos: u32) -> nat {
    (secs * NANOS_PER_SECOND + subsec_nanos) as nat
}

/// A time in nanoseconds; one too long to count, over 584 years, is taken
/// as the longest that can be counted.
pub fn elapsed_nanos(secs: u64, subsec_nanos: u32) -> (nanos: u64)
    ensures
        nanos == if nanos_of(secs, subsec_nanos) <= u64::MAX {
            nanos_of(secs, subsec_nanos)
        } else {
            u64::MAX as nat
        },
{
    let exact: u128 = (secs as u128) * 1_000_000_000u128 + (subsec_nanos as u128);
    if exact > u64::MAX as u128 {
        u64::MAX
    } else {
        exact as u64
    }
}

/// What a connection attempt that took `elapsed` nanoseconds counts as.
pub open spec fn judged(attempt: Connect, elapsed: u64) -> Result<ProbeOutcome, ProbeError> {
    match attempt {
        Connect::Established => Ok(ProbeOutcome { succeeded: true, elapsed }),
        Connect::TimedOut => Ok(ProbeOutcome { succeeded: false, elapsed }),
        Connect::Failed(reason) => Err(ProbeError::Connection(reason)),
    }
}

/// Judges one connection attempt: a connection made is a success, a
/// timeout is an ordinary failure that the statistics absorb, and any
/// other failure ends the run.
pub fn judge(attempt: Connect, elapsed: u64) -> (r: Result<ProbeOutcome, ProbeError>)
    ensures
        r == judged(attempt, elapsed),
{
    match attempt {
        Connect::Established => Ok(ProbeOutcome { succeeded: true, elapsed }),
        Connect::TimedOut => Ok(ProbeOutcome { succeeded: false, elapsed }),
        Connect::Failed(reason) => Err(ProbeError::Connection(reason)),
    }
}

} // verus!
