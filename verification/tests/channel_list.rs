use dvb_tune::channels::ChannelsData;
use dvb_tune::error::WriteError;
use dvb_tune::params::{DeliverySystem, DeliverySystemParameters, Polarization, Tuning};
use dvb_tune::service::ServiceRecord;
use dvb_tune::writer::{conclude_write, SinkReport};

fn terrestrial(frequency: u32) -> DeliverySystemParameters {
    DeliverySystemParameters::terrestrial(frequency, 8_000_000).unwrap()
}

fn service(name: &str, service_id: u16, frequency: u32) -> ServiceRecord {
    ServiceRecord {
        name: name.to_string(),
        service_id,
        transport_id: 1,
        video_pid: Some(101),
        audio_pid: Some(102),
        transponder: terrestrial(frequency),
    }
}

#[test]
fn merge_keeps_the_first_record_of_a_key() {
    let mut list = ChannelsData::empty();
    assert!(list.merge(service("One", 1, 700_000_000)));
    let mut again = service("One", 1, 700_000_000);
    again.video_pid = Some(999);
    assert!(!list.merge(again));
    assert_eq!(list.len(), 1);
    assert_eq!(list.get(0).unwrap().video_pid, Some(101));
}

#[test]
fn merging_a_record_twice_changes_nothing() {
    let mut list = ChannelsData::empty();
    list.merge(service("One", 1, 700_000_000));
    list.merge(service("Two", 2, 700_000_000));
    let once = list.records();
    list.merge(service("Two", 2, 700_000_000));
    assert_eq!(list.records(), once);
}

#[test]
fn a_key_is_frequency_name_and_id_together() {
    let mut list = ChannelsData::empty();
    assert!(list.merge(service("One", 1, 700_000_000)));
    assert!(list.merge(service("One", 1, 750_000_000)));
    assert!(list.merge(service("One", 2, 700_000_000)));
    assert!(list.merge(service("Uno", 1, 700_000_000)));
    assert_eq!(list.len(), 4);
    assert!(list.contains(&service("Uno", 1, 700_000_000)));
    assert!(!list.contains(&service("Uno", 2, 750_000_000)));
}

#[test]
fn the_key_ignores_the_other_tuning_fields() {
    let mut list = ChannelsData::empty();
    assert!(list.merge(service("One", 1, 11_000_000)));
    let mut satellite = service("One", 1, 11_000_000);
    satellite.transponder =
        DeliverySystemParameters::satellite(11_000_000, 27_500_000, Polarization::Horizontal)
            .unwrap();
    assert!(!list.merge(satellite));
    assert_eq!(list.len(), 1);
}

#[test]
fn merge_many_keeps_order_and_counts_what_is_new() {
    let mut list = ChannelsData::empty();
    list.merge(service("Two", 2, 700_000_000));
    let added = list.merge_many(&vec![
        service("One", 1, 700_000_000),
        service("Two", 2, 700_000_000),
        service("Three", 3, 700_000_000),
        service("One", 1, 700_000_000),
    ]);
    assert_eq!(added, 2);
    let names: Vec<String> = list.records().into_iter().map(|record| record.name).collect();
    assert_eq!(names, vec!["Two".to_string(), "One".to_string(), "Three".to_string()]);
}

#[test]
fn new_builds_the_list_in_order_without_repeats() {
    let list = ChannelsData::new(vec![
        service("One", 1, 700_000_000),
        service("Two", 2, 700_000_000),
        service("One", 1, 700_000_000),
    ]);
    assert_eq!(list.len(), 2);
    assert_eq!(list.get(0).unwrap().name, "One");
    assert_eq!(list.get(1).unwrap().name, "Two");
    assert!(list.get(2).is_none());
}

#[test]
fn new_of_nothing_is_the_empty_list() {
    let list = ChannelsData::new(Vec::new());
    assert!(list.is_empty());
    assert_eq!(list.len(), 0);
    assert_eq!(list, ChannelsData::empty());
}

#[test]
fn a_written_list_read_back_is_the_same_list() {
    let mut list = ChannelsData::empty();
    list.merge(service("One", 1, 700_000_000));
    list.merge(service("Two", 2, 700_000_000));
    list.merge(service("One", 1, 750_000_000));
    let job = list.write(DeliverySystem::Terrestrial).unwrap();
    assert_eq!(job.delivery_system, DeliverySystem::Terrestrial);
    let keys: Vec<(u32, String, u16)> = job
        .records
        .iter()
        .map(|record| (record.transponder.frequency(), record.name.clone(), record.service_id))
        .collect();
    assert_eq!(
        keys,
        vec![
            (700_000_000, "One".to_string(), 1),
            (700_000_000, "Two".to_string(), 2),
            (750_000_000, "One".to_string(), 1),
        ]
    );
    let again = ChannelsData::new(job.records);
    assert_eq!(again, list);
}

#[test]
fn an_empty_list_is_not_written() {
    let list = ChannelsData::empty();
    assert_eq!(list.write(DeliverySystem::Cable), Err(WriteError::EmptyList));
}

#[test]
fn a_write_succeeds_only_with_every_record_stored() {
    let mut list = ChannelsData::empty();
    list.merge(service("One", 1, 700_000_000));
    list.merge(service("Two", 2, 700_000_000));
    let job = list.write(DeliverySystem::Terrestrial).unwrap();
    assert_eq!(conclude_write(&job, SinkReport::Stored { records: 2 }), Ok(()));
    assert_eq!(
        conclude_write(&job, SinkReport::Stored { records: 1 }),
        Err(WriteError::Incomplete { written: 1, expected: 2 })
    );
    assert_eq!(conclude_write(&job, SinkReport::Unwritable), Err(WriteError::Unwritable));
}

#[test]
fn parameters_report_frequency_fields_and_system() {
    let cable = DeliverySystemParameters::cable(346_000_000, 6_900_000).unwrap();
    assert_eq!(cable.frequency(), 346_000_000);
    assert_eq!(cable.tuning(), Tuning::Cable { symbol_rate: 6_900_000 });
    assert_eq!(cable.system(), DeliverySystem::Cable);
    let satellite =
        DeliverySystemParameters::satellite(11_778_000, 27_500_000, Polarization::Vertical).unwrap();
    assert_eq!(satellite.frequency(), 11_778_000);
    assert_eq!(
        satellite.tuning(),
        Tuning::Satellite { symbol_rate: 27_500_000, polarization: Polarization::Vertical }
    );
    assert_eq!(satellite.system(), DeliverySystem::Satellite);
    assert_eq!(terrestrial(1).frequency(), 1);
    assert_eq!(terrestrial(1).tuning(), Tuning::Terrestrial { bandwidth_hz: 8_000_000 });
    assert_eq!(terrestrial(1).system(), DeliverySystem::Terrestrial);
    assert_eq!(
        DeliverySystemParameters::new(u32::MAX, Tuning::Cable { symbol_rate: 0 }),
        DeliverySystemParameters::cable(u32::MAX, 0)
    );
    assert_ne!(terrestrial(1), DeliverySystemParameters::cable(1, 8_000_000).unwrap());
}

#[test]
fn there_are_no_parameters_without_a_frequency() {
    assert_eq!(DeliverySystemParameters::terrestrial(0, 8_000_000), None);
    assert_eq!(DeliverySystemParameters::satellite(0, 27_500_000, Polarization::CircularLeft), None);
    assert_eq!(DeliverySystemParameters::cable(0, 6_900_000), None);
    assert_eq!(DeliverySystemParameters::new(0, Tuning::Terrestrial { bandwidth_hz: 0 }), None);
    assert!(DeliverySystemParameters::terrestrial(1, 0).is_some());
}
