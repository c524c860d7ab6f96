//! A library for synchronizing a set of git working copies against their
//! upstream branches: repository discovery, the per-repository update state
//! machine, progress arithmetic, and aggregate statistics.
//!
//! All I/O — the git engine itself, the terminal, threads — lives outside the
//! library. The library supplies the decisions: which directories count as
//! repositories, what each observed repository event means for the update
//! sequence, and how outcomes are tallied.

pub mod outcome;
pub mod stats;
pub mod updater;
pub mod discover;
pub mod progress;
