//! Orchestration logic for scanning DVB transponders.
//!
//! The crate holds the decisions of a transponder scan: which entry to tune
//! next, how long to poll for a lock, what to do with harvested services, and
//! how the accumulated channel list is handed to a writer. It performs no
//! device or file access itself. A driver performs each requested action and
//! reports what it observed.

pub mod channels;
pub mod engine;
pub mod error;
pub mod options;
pub mod outcome;
pub mod params;
pub mod progress;
pub mod report;
pub mod sampler;
pub mod service;
pub mod status;
pub mod text;
pub mod trace;
pub mod transmitter;
pub mod writer;
