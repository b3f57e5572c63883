//! The reachability probe: choosing the address, judging each connection
//! attempt, keeping the statistics and steering the run.

pub mod cli;
pub mod probe;
pub mod resolve;
pub mod session;
pub mod socket;
pub mod stats;
