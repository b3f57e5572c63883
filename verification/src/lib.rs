//! Verified core of two small command-line tools: a TCP reachability probe
//! that reports loss and latency, and a recursive file finder.
//!
//! The library holds every rule and computation of the tools; sockets, the
//! file system, signals and the terminal belong to the program around it.

pub mod common;
pub mod find;
pub mod number;
pub mod ping;
pub mod text;
