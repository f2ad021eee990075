//! Handing a channel list to the sink that stores it.
//!
//! The library decides whether there is anything to write, fixes what the
//! sink is handed, and judges what the sink reports. The sink itself, and the
//! layout of the file, are outside.

use crate::channels::{distinct_keys, ChannelsData};
use crate::error::WriteError;
use crate::params::DeliverySystem;
use crate::service::{record_views, ServiceRecord};
use vstd::prelude::*;

verus! {

/// Everything that one write hands to the sink, gathered before the sink is
/// touched: the delivery system of the frontend and the records in list
/// order, each once.
#[derive(Debug, PartialEq, Eq)]
pub struct WriteJob {
    pub delivery_system: DeliverySystem,
    pub records: Vec<ServiceRecord>,
}

/// What the sink reports after a write.
#[derive(Clone, Copy, Debug, PartialEq, Eq, Structural)]
pub enum SinkReport {
    /// The file is in place and holds this many records.
    Stored { records: usize },
    /// The output path could not be created or truncated.
    Unwritable,
}

impl ChannelsData {
    /// Prepares the write of this list for a frontend of `delivery_system`.
    /// An empty list is refused, since a channel file needs at least one
    /// record; otherwise the job holds every record of the list once, in list
    /// order.
    pub fn write(&self, delivery_system: DeliverySystem) -> (prepared: Result<WriteJob, WriteError>)
        ensures
            match prepared {
                Ok(job) => self@.len() > 0 && record_views(job.records@) == self@
                    && job.delivery_system == delivery_system && distinct_keys(
                    record_views(job.records@),
                ),
                Err(error) => self@.len() == 0 && error == WriteError::EmptyList,
            },
    {
        if self.is_empty() {
            Err(WriteError::EmptyList)
        } else {
            Ok(WriteJob { delivery_system, records: self.records() })
        }
    }
}

/// The result of a write, given what the sink reported for `job`.
pub open spec fn write_result(job: WriteJob, report: SinkReport) -> Result<(), WriteError> {
    match report {
        SinkReport::Unwritable => Err(WriteError::Unwritable),
        SinkReport::Stored { records } => if records == job.records@.len() {
            Ok(())
        } else {
            Err(WriteError::Incomplete { written: records, expected: job.records@.len() as usize })
        },
    }
}

/// Judges what the sink reported: the write succeeded only if the file is in
/// place with every record of the job.
pub fn conclude_write(job: &WriteJob, report: SinkReport) -> (result: Result<(), WriteError>)
    ensures
        result == write_result(*job, report),
{
    match report {
        SinkReport::Unwritable => Err(WriteError::Unwritable),
        SinkReport::Stored { records } => {
            if records == job.records.len() {
                Ok(())
            } else {
                Err(WriteError::Incomplete { written: records, expected: job.records.len() })
            }
        },
    }
}

} // verus!
