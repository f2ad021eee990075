//! Error values that cross the library's boundary.

use vstd::prelude::*;

verus! {

/// Why the frontend could not be opened.
#[derive(Clone, Copy, Debug, PartialEq, Eq, Structural)]
pub enum OpenError {
    /// The device path does not exist.
    NotFound,
    /// The device is already held exclusively.
    Busy,
}

/// Why the frontend did not accept a set of tuning parameters.
#[derive(Clone, Copy, Debug, PartialEq, Eq, Structural)]
pub enum TuneError {
    /// The combination of parameters is invalid or not supported.
    Unsupported,
    /// The driver rejected the request.
    Rejected,
}

/// Why the table reader delivered nothing for a locked transponder.
#[derive(Clone, Copy, Debug, PartialEq, Eq, Structural)]
pub enum HarvestError {
    /// The tables did not arrive within the timeout budget.
    Timeout,
    /// The tables could not be read or decoded.
    ReadFailed,
}

/// A failure of the whole scan.
#[derive(Clone, Copy, Debug, PartialEq, Eq, Structural)]
pub enum ScanError {
    /// The frontend could not be acquired.
    Resource(OpenError),
    /// The frontend vanished while the scan was running.
    DeviceLost,
}

/// A failure of the output step.
#[derive(Clone, Copy, Debug, PartialEq, Eq, Structural)]
pub enum WriteError {
    /// The channel list holds no record, and a channel file needs one.
    EmptyList,
    /// The output path could not be created or truncated.
    Unwritable,
    /// The sink stored fewer records than it was handed.
    Incomplete { written: usize, expected: usize },
}

} // verus!
