//! The file finder: its command line, the pattern for names, and the
//! judgement on what a walk through the directories meets.

pub mod cli;
pub mod find;
pub mod pattern;
