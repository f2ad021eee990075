//! Services discovered on a transponder.

use crate::params::DeliverySystemParameters;
use vstd::prelude::*;

verus! {

/// What makes two service records the same service: the frequency of the
/// owning transponder together with the service's name and numeric id.
pub ghost struct ServiceKey {
    pub frequency: u32,
    pub name: Seq<char>,
    pub service_id: u16,
}

/// The mathematical value of a [`ServiceRecord`].
pub ghost struct ServiceRecordView {
    pub name: Seq<char>,
    pub service_id: u16,
    pub transport_id: u16,
    pub video_pid: Option<u16>,
    pub audio_pid: Option<u16>,
    pub transponder: DeliverySystemParameters,
}

impl ServiceRecordView {
    /// The uniqueness key of the record.
    pub open spec fn key(self) -> ServiceKey {
        ServiceKey {
            frequency: self.transponder.spec_frequency(),
            name: self.name,
            service_id: self.service_id,
        }
    }
}

/// One service found on a locked transponder. The owning transponder's
/// parameters are held by value.
#[derive(Debug, PartialEq, Eq)]
pub struct ServiceRecord {
    pub name: String,
    pub service_id: u16,
    pub transport_id: u16,
    pub video_pid: Option<u16>,
    pub audio_pid: Option<u16>,
    pub transponder: DeliverySystemParameters,
}

impl View for ServiceRecord {
    type V = ServiceRecordView;

    open spec fn view(&self) -> ServiceRecordView {
        ServiceRecordView {
            name: self.name@,
            service_id: self.service_id,
            transport_id: self.transport_id,
            video_pid: self.video_pid,
            audio_pid: self.audio_pid,
            transponder: self.transponder,
        }
    }
}

impl Clone for ServiceRecord {
    fn clone(&self) -> (copy: Self)
        ensures
            copy == *self,
    {
        ServiceRecord {
            name: self.name.clone(),
            service_id: self.service_id,
            transport_id: self.transport_id,
            video_pid: self.video_pid,
            audio_pid: self.audio_pid,
            transponder: self.transponder,
        }
    }
}

impl ServiceRecord {
    /// Whether two records name the same service on the same frequency.
    pub fn same_key(&self, other: &ServiceRecord) -> (same: bool)
        ensures
            same == (self@.key() == other@.key()),
    {
        self.transponder.frequency() == other.transponder.frequency() && self.service_id
            == other.service_id && self.name == other.name
    }
}

/// The views of a sequence of records, element by element.
pub open spec fn record_views(records: Seq<ServiceRecord>) -> Seq<ServiceRecordView> {
    Seq::new(records.len(), |i: int| records[i]@)
}

} // verus!
