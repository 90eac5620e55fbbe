//! A small collection of command-line utility building blocks.
//!
//! The centrepiece is the command execution timing wrapper: resolving a
//! program on the search path, classifying the target file, rendering the
//! three measured durations (wall-clock, user CPU, system CPU) in either
//! the POSIX or the human-readable layout, and mapping every outcome to
//! the wrapper's own exit code.

pub mod config;
pub mod datetime;
pub mod invocation;
pub mod localtime;
pub mod outcome;
pub mod report;
pub mod resolve;
pub mod timezone;
pub mod timing;
