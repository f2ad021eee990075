//! How a whole run ends: scan first, then the write, then the exit.

use crate::channels::ChannelsData;
use crate::error::{ScanError, WriteError};
use vstd::prelude::*;

verus! {

/// The end of a run.
#[derive(Clone, Copy, Debug, PartialEq, Eq, Structural)]
pub enum RunOutcome {
    /// The transmitter list could not be read.
    TransmitterUnreadable,
    /// The scan failed as a whole.
    ScanFailed(ScanError),
    /// The scan succeeded and the channel list could not be stored.
    WriteFailed(WriteError),
    /// The scan succeeded and the channel list was stored.
    Completed,
}

/// What follows a scan.
#[derive(Debug, PartialEq, Eq)]
pub enum AfterScan {
    /// The scan returned a list, complete or partial: write it.
    Write(ChannelsData),
    /// The scan failed: the writer is not invoked, and the run ends.
    Stop(RunOutcome),
}

/// Decides what follows a scan: a returned list goes to the writer, a failed
/// scan ends the run without a write.
pub fn after_scan(scanned: Result<ChannelsData, ScanError>) -> (next: AfterScan)
    ensures
        match scanned {
            Ok(list) => next == AfterScan::Write(list),
            Err(error) => next == AfterScan::Stop(RunOutcome::ScanFailed(error)),
        },
{
    match scanned {
        Ok(list) => AfterScan::Write(list),
        Err(error) => AfterScan::Stop(RunOutcome::ScanFailed(error)),
    }
}

/// The end of a run whose scan succeeded, by the result of the write.
pub fn after_write(written: Result<(), WriteError>) -> (outcome: RunOutcome)
    ensures
        match written {
            Ok(_) => outcome == RunOutcome::Completed,
            Err(error) => outcome == RunOutcome::WriteFailed(error),
        },
{
    match written {
        Ok(_) => RunOutcome::Completed,
        Err(error) => RunOutcome::WriteFailed(error),
    }
}

impl RunOutcome {
    /// The exit status of the process. It is not zero where the transmitter
    /// list could not be read or the frontend could not be opened, and zero
    /// otherwise.
    pub open spec fn spec_exit_code(&self) -> u8 {
        match *self {
            RunOutcome::TransmitterUnreadable => 1,
            RunOutcome::ScanFailed(ScanError::Resource(_)) => 1,
            _ => 0,
        }
    }

    /// The exit status of the process.
    #[verifier::when_used_as_spec(spec_exit_code)]
    pub fn exit_code(&self) -> (code: u8)
        ensures
            code == self.spec_exit_code(),
    {
        match self {
            RunOutcome::TransmitterUnreadable => 1,
            RunOutcome::ScanFailed(ScanError::Resource(_)) => 1,
            _ => 0,
        }
    }

    /// Whether the output step failed after a scan that succeeded.
    pub open spec fn spec_is_write_failure(&self) -> bool {
        *self is WriteFailed
    }

    /// Whether the output step failed after a scan that succeeded.
    #[verifier::when_used_as_spec(spec_is_write_failure)]
    pub fn is_write_failure(&self) -> (failed: bool)
        ensures
            failed == self.spec_is_write_failure(),
    {
        match self {
            RunOutcome::WriteFailed(_) => true,
            _ => false,
        }
    }

    /// The line that reports the outcome; none for a run that completed.
    pub open spec fn spec_message(&self) -> Option<Seq<char>> {
        match *self {
            RunOutcome::TransmitterUnreadable => Some("**** Could not get transmitter data. ****"@),
            RunOutcome::ScanFailed(ScanError::Resource(_)) => Some(
                "**** No receiver, cannot scan. *****"@,
            ),
            RunOutcome::ScanFailed(ScanError::DeviceLost) => Some(
                "**** Receiver lost, scan abandoned. ****"@,
            ),
            RunOutcome::WriteFailed(_) => Some("**** Error writing channels data ****"@),
            RunOutcome::Completed => None,
        }
    }

    /// The line that reports the outcome; none for a run that completed.
    pub fn message(&self) -> (line: Option<&'static str>)
        ensures
            match line {
                Some(text) => self.spec_message() == Some(text@),
                None => self.spec_message().is_none(),
            },
    {
        match self {
            RunOutcome::TransmitterUnreadable => Some("**** Could not get transmitter data. ****"),
            RunOutcome::ScanFailed(ScanError::Resource(_)) => Some(
                "**** No receiver, cannot scan. *****",
            ),
            RunOutcome::ScanFailed(ScanError::DeviceLost) => Some(
                "**** Receiver lost, scan abandoned. ****",
            ),
            RunOutcome::WriteFailed(_) => Some("**** Error writing channels data ****"),
            RunOutcome::Completed => None,
        }
    }
}

} // verus!
