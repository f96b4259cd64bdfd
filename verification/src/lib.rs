//! Verified core of a command-line backup tool for a vector-database server.
//!
//! The library holds everything about a backup run that can be stated and
//! proved: how request paths are built from a base URL and percent-encoded
//! names, how the output directory and snapshot file names are formed, and
//! the order of snapshot-creation, download and write steps that one run
//! performs.  The surrounding binary does the HTTP traffic and the file
//! writes and feeds their outcomes back into the run state machine.

pub mod client;
pub mod encoding;
pub mod models;
pub mod run;
pub mod timestamp;
