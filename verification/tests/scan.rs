use dvb_tune::channels::ChannelsData;
use dvb_tune::engine::{
    EntryOutcome, Harvest, ScanAction, ScanEngine, ScanEvent, ScanPhase, SkipReason,
};
use dvb_tune::error::{HarvestError, OpenError, ScanError, TuneError, WriteError};
use dvb_tune::options::ScanOptions;
use dvb_tune::outcome::{after_scan, after_write, AfterScan, RunOutcome};
use dvb_tune::params::{DeliverySystem, DeliverySystemParameters, FrontendId};
use dvb_tune::report::count_skipped;
use dvb_tune::service::ServiceRecord;
use dvb_tune::status::PollOutcome;
use dvb_tune::transmitter::{TransmitterData, TransponderEntry};
use dvb_tune::writer::{conclude_write, SinkReport};

fn terrestrial(frequency: u32) -> DeliverySystemParameters {
    DeliverySystemParameters::terrestrial(frequency, 8_000_000).unwrap()
}

fn entry(frequency: u32) -> TransponderEntry {
    TransponderEntry::bare(terrestrial(frequency))
}

fn service(name: &str, service_id: u16, frequency: u32) -> ServiceRecord {
    ServiceRecord {
        name: name.to_string(),
        service_id,
        transport_id: 7,
        video_pid: Some(101),
        audio_pid: Some(102),
        transponder: terrestrial(frequency),
    }
}

/// How a pretended transponder behaves.
#[derive(Clone)]
struct Behaviour {
    parameters: DeliverySystemParameters,
    tune: Result<(), TuneError>,
    locks_at_poll: Option<u32>,
    detected: Option<DeliverySystemParameters>,
    services: Vec<ServiceRecord>,
    transponders: Vec<DeliverySystemParameters>,
    harvest_error: Option<HarvestError>,
}

fn locking(frequency: u32, locks_at_poll: u32, services: Vec<ServiceRecord>) -> Behaviour {
    Behaviour {
        parameters: terrestrial(frequency),
        tune: Ok(()),
        locks_at_poll: Some(locks_at_poll),
        detected: None,
        services,
        transponders: Vec::new(),
        harvest_error: None,
    }
}

fn silent(frequency: u32) -> Behaviour {
    Behaviour {
        parameters: terrestrial(frequency),
        tune: Ok(()),
        locks_at_poll: None,
        detected: None,
        services: Vec::new(),
        transponders: Vec::new(),
        harvest_error: None,
    }
}

/// A pretended frontend and table reader, and a record of what was asked.
struct Device {
    open: Result<(), OpenError>,
    behaviours: Vec<Behaviour>,
    abort_once_tuned: Option<usize>,
    current: Option<Behaviour>,
    polls_of_current: u32,
    tuned: Vec<DeliverySystemParameters>,
    polls: Vec<u32>,
    harvested_with: Vec<DeliverySystemParameters>,
    actions: Vec<ScanAction>,
}

impl Device {
    fn new(behaviours: Vec<Behaviour>) -> Device {
        Device {
            open: Ok(()),
            behaviours,
            abort_once_tuned: None,
            current: None,
            polls_of_current: 0,
            tuned: Vec::new(),
            polls: Vec::new(),
            harvested_with: Vec::new(),
            actions: Vec::new(),
        }
    }

    fn abort_requested(&self) -> bool {
        match self.abort_once_tuned {
            Some(limit) => self.tuned.len() >= limit,
            None => false,
        }
    }

    fn perform(&mut self, action: ScanAction) -> Option<ScanEvent> {
        self.actions.push(action);
        match action {
            ScanAction::Open(_) => Some(ScanEvent::Opened(self.open)),
            ScanAction::Tune { parameters, .. } => {
                self.tuned.push(parameters);
                self.polls.push(0);
                self.polls_of_current = 0;
                let found =
                    self.behaviours.iter().find(|known| known.parameters == parameters).cloned();
                let result = match &found {
                    Some(behaviour) => behaviour.tune,
                    None => Err(TuneError::Unsupported),
                };
                self.current = found;
                Some(ScanEvent::Tuned(result))
            }
            ScanAction::Poll => {
                self.polls_of_current += 1;
                *self.polls.last_mut().unwrap() += 1;
                let locks_at = self.current.as_ref().unwrap().locks_at_poll;
                let status = match locks_at {
                    Some(at) if self.polls_of_current >= at => 0x1f,
                    _ => 0x03,
                };
                Some(ScanEvent::Polled(PollOutcome::Sampled { status, readings: Vec::new() }))
            }
            ScanAction::Wait { millis } => {
                assert_eq!(millis, 100);
                Some(ScanEvent::Waited)
            }
            ScanAction::ReadDetected => {
                Some(ScanEvent::Detected(self.current.as_ref().unwrap().detected))
            }
            ScanAction::Harvest { parameters, .. } => {
                self.harvested_with.push(parameters);
                let behaviour = self.current.as_ref().unwrap();
                Some(ScanEvent::Harvested(match behaviour.harvest_error {
                    Some(error) => Err(error),
                    None => Ok(Harvest {
                        services: behaviour.services.clone(),
                        transponders: behaviour.transponders.clone(),
                    }),
                }))
            }
            ScanAction::Close => Some(ScanEvent::Closed),
            ScanAction::Done => None,
            ScanAction::Rejected => panic!("the engine rejected an event it asked for"),
        }
    }
}

fn run(engine: &mut ScanEngine, device: &mut Device) {
    let mut event = ScanEvent::Start;
    loop {
        let action = engine.step(event, device.abort_requested());
        match device.perform(action) {
            Some(next) => event = next,
            None => break,
        }
    }
}

fn engine_for(frequencies: &[u32], options: ScanOptions) -> ScanEngine {
    let entries = frequencies.iter().map(|frequency| entry(*frequency)).collect();
    ScanEngine::new(FrontendId { adapter_number: 0, frontend_number: 0 }, options, entries)
}

fn names(list: &ChannelsData) -> Vec<String> {
    list.records().into_iter().map(|record| record.name).collect()
}

fn closes(device: &Device) -> usize {
    device.actions.iter().filter(|action| **action == ScanAction::Close).count()
}

#[test]
fn fail_to_scan_with_silly_frontend() {
    let transmitter_data = TransmitterData::new(vec![entry(490_000_000), entry(514_000_000)]);
    // NB Assume that this FrontendId doesn't exist at the time of the test.
    let silly = FrontendId { adapter_number: 254, frontend_number: 254 };
    let mut engine = transmitter_data.scan(&silly, None, None, None, None, None);
    let mut device = Device::new(Vec::new());
    device.open = Err(OpenError::NotFound);
    run(&mut engine, &mut device);
    assert_eq!(device.actions, vec![ScanAction::Open(silly), ScanAction::Done]);
    if engine.into_result().is_ok() {
        assert!(false, "Unexpected working scan.");
    }
}

#[test]
fn one_entry_locks_and_one_never_does() {
    let mut engine = engine_for(&[700_000_000, 750_000_000], ScanOptions::default());
    let mut device = Device::new(vec![
        locking(
            700_000_000,
            3,
            vec![
                service("One", 1, 700_000_000),
                service("Two", 2, 700_000_000),
                service("Three", 3, 700_000_000),
            ],
        ),
        silent(750_000_000),
    ]);
    run(&mut engine, &mut device);
    assert!(engine.is_finished());
    assert_eq!(device.tuned, vec![terrestrial(700_000_000), terrestrial(750_000_000)]);
    assert_eq!(device.polls, vec![3, 20]);
    assert_eq!(
        engine.outcomes(),
        vec![
            EntryOutcome::Harvested { offered: 3, added: 3 },
            EntryOutcome::FailedSkipped(SkipReason::LockTimeout),
        ]
    );
    assert_eq!(count_skipped(&engine.outcomes()), 1);
    assert_eq!(closes(&device), 1);
    let list = engine.into_result().unwrap();
    assert_eq!(list.len(), 3);
    assert_eq!(names(&list), vec!["One".to_string(), "Two".to_string(), "Three".to_string()]);
    assert_eq!(after_scan(Ok(list)), {
        let mut same = ChannelsData::empty();
        same.merge_many(&vec![
            service("One", 1, 700_000_000),
            service("Two", 2, 700_000_000),
            service("Three", 3, 700_000_000),
        ]);
        AfterScan::Write(same)
    });
}

#[test]
fn a_reported_transponder_is_noted_but_not_tuned_without_discovery() {
    let mut engine = engine_for(&[700_000_000], ScanOptions::default());
    let mut found = locking(700_000_000, 1, vec![service("One", 1, 700_000_000)]);
    found.transponders = vec![terrestrial(800_000_000), terrestrial(700_000_000)];
    let mut device =
        Device::new(vec![found, locking(800_000_000, 1, vec![service("Far", 9, 800_000_000)])]);
    run(&mut engine, &mut device);
    assert_eq!(device.tuned, vec![terrestrial(700_000_000)]);
    assert_eq!(engine.discovered(), vec![terrestrial(800_000_000)]);
    assert_eq!(engine.entry_count(), 1);
    assert_eq!(names(&engine.into_result().unwrap()), vec!["One".to_string()]);
}

#[test]
fn a_reported_transponder_is_scanned_in_the_same_run_with_discovery() {
    let options = ScanOptions { discover_new_transponders: true, ..ScanOptions::default() };
    let mut engine = engine_for(&[700_000_000], options);
    let mut found = locking(700_000_000, 1, vec![service("One", 1, 700_000_000)]);
    found.transponders =
        vec![terrestrial(800_000_000), terrestrial(800_000_000), terrestrial(700_000_000)];
    let mut far = locking(800_000_000, 2, vec![service("Far", 9, 800_000_000)]);
    far.transponders = vec![terrestrial(700_000_000), terrestrial(800_000_000)];
    let mut device = Device::new(vec![found, far]);
    run(&mut engine, &mut device);
    assert_eq!(device.tuned, vec![terrestrial(700_000_000), terrestrial(800_000_000)]);
    assert_eq!(engine.discovered(), vec![terrestrial(800_000_000)]);
    assert_eq!(engine.entry_count(), 2);
    assert_eq!(engine.entry(1), Some(&entry(800_000_000)));
    assert_eq!(engine.entry(2), None);
    assert_eq!(
        names(&engine.into_result().unwrap()),
        vec!["One".to_string(), "Far".to_string()]
    );
}

#[test]
fn a_busy_frontend_fails_the_scan_and_nothing_is_written() {
    let mut engine = engine_for(&[700_000_000], ScanOptions::default());
    let mut device = Device::new(vec![locking(700_000_000, 1, vec![service("One", 1, 700_000_000)])]);
    device.open = Err(OpenError::Busy);
    run(&mut engine, &mut device);
    assert!(device.tuned.is_empty());
    assert_eq!(closes(&device), 0);
    assert_eq!(engine.error(), Some(ScanError::Resource(OpenError::Busy)));
    let result = engine.into_result();
    assert_eq!(result, Err(ScanError::Resource(OpenError::Busy)));
    let next = after_scan(result);
    assert_eq!(next, AfterScan::Stop(RunOutcome::ScanFailed(ScanError::Resource(OpenError::Busy))));
    match next {
        AfterScan::Stop(outcome) => {
            assert_eq!(outcome.exit_code(), 1);
            assert!(!outcome.is_write_failure());
            assert_eq!(outcome.message(), Some("**** No receiver, cannot scan. *****"));
        }
        AfterScan::Write(_) => panic!("a failed scan must not reach the writer"),
    }
}

#[test]
fn an_unwritable_path_fails_the_write_and_not_the_scan() {
    let mut engine = engine_for(&[700_000_000], ScanOptions::default());
    let mut device = Device::new(vec![locking(700_000_000, 1, vec![service("One", 1, 700_000_000)])]);
    run(&mut engine, &mut device);
    let scanned = engine.into_result();
    assert!(scanned.is_ok());
    let list = match after_scan(scanned) {
        AfterScan::Write(list) => list,
        AfterScan::Stop(_) => panic!("the scan succeeded"),
    };
    let job = list.write(DeliverySystem::Terrestrial).unwrap();
    let written = conclude_write(&job, SinkReport::Unwritable);
    assert_eq!(written, Err(WriteError::Unwritable));
    let outcome = after_write(written);
    assert_eq!(outcome, RunOutcome::WriteFailed(WriteError::Unwritable));
    assert!(outcome.is_write_failure());
    assert_eq!(outcome.message(), Some("**** Error writing channels data ****"));
    assert_eq!(outcome.exit_code(), 0);
    assert_eq!(after_write(Ok(())), RunOutcome::Completed);
    assert_eq!(RunOutcome::Completed.message(), None);
    assert_eq!(RunOutcome::Completed.exit_code(), 0);
}

#[test]
fn the_run_outcomes_have_their_exit_codes_and_lines() {
    assert_eq!(RunOutcome::TransmitterUnreadable.exit_code(), 1);
    assert_eq!(
        RunOutcome::TransmitterUnreadable.message(),
        Some("**** Could not get transmitter data. ****")
    );
    assert_eq!(RunOutcome::ScanFailed(ScanError::Resource(OpenError::NotFound)).exit_code(), 1);
    assert_eq!(RunOutcome::ScanFailed(ScanError::DeviceLost).exit_code(), 0);
    assert_eq!(
        RunOutcome::ScanFailed(ScanError::DeviceLost).message(),
        Some("**** Receiver lost, scan abandoned. ****")
    );
    assert_eq!(RunOutcome::WriteFailed(WriteError::EmptyList).exit_code(), 0);
    assert!(!RunOutcome::Completed.is_write_failure());
}

#[test]
fn an_abort_before_an_entry_stops_the_scan_and_keeps_what_was_merged() {
    let mut engine = engine_for(&[700_000_000, 750_000_000, 800_000_000], ScanOptions::default());
    let mut device = Device::new(vec![
        locking(700_000_000, 1, vec![service("One", 1, 700_000_000)]),
        locking(750_000_000, 1, vec![service("Two", 2, 750_000_000)]),
        locking(800_000_000, 1, vec![service("Three", 3, 800_000_000)]),
    ]);
    device.abort_once_tuned = Some(1);
    run(&mut engine, &mut device);
    assert_eq!(device.tuned, vec![terrestrial(700_000_000)]);
    assert_eq!(closes(&device), 1);
    assert!(engine.is_finished());
    assert_eq!(engine.cursor(), 0);
    assert_eq!(engine.outcomes(), vec![EntryOutcome::AbortedStop]);
    assert_eq!(engine.error(), None);
    assert!(engine.into_result().unwrap().is_empty());
}

#[test]
fn an_abort_between_entries_is_seen_before_the_next_is_tuned() {
    let mut engine = engine_for(&[700_000_000, 750_000_000], ScanOptions::default());
    assert_eq!(
        engine.step(ScanEvent::Start, false),
        ScanAction::Open(FrontendId { adapter_number: 0, frontend_number: 0 })
    );
    assert_eq!(
        engine.step(ScanEvent::Opened(Ok(())), false),
        ScanAction::Tune { index: 0, parameters: terrestrial(700_000_000) }
    );
    assert_eq!(engine.phase(), ScanPhase::Tuning);
    assert_eq!(engine.step(ScanEvent::Tuned(Ok(())), false), ScanAction::Poll);
    assert_eq!(engine.phase(), ScanPhase::Sampling);
    assert_eq!(
        engine.step(
            ScanEvent::Polled(PollOutcome::Sampled { status: 0x1f, readings: Vec::new() }),
            false
        ),
        ScanAction::ReadDetected
    );
    assert_eq!(engine.phase(), ScanPhase::LockedDetecting);
    assert_eq!(
        engine.step(ScanEvent::Detected(None), false),
        ScanAction::Harvest {
            index: 0,
            parameters: terrestrial(700_000_000),
            alternate_table_ids: false,
            timeout_multiplier: 1,
        }
    );
    assert_eq!(engine.phase(), ScanPhase::LockedHarvesting);
    let harvest = Harvest {
        services: vec![service("One", 1, 700_000_000), service("One", 1, 700_000_000)],
        transponders: Vec::new(),
    };
    assert_eq!(engine.step(ScanEvent::Harvested(Ok(harvest)), true), ScanAction::Close);
    assert_eq!(engine.phase(), ScanPhase::Closing);
    assert_eq!(engine.cursor(), 1);
    assert_eq!(engine.outcomes(), vec![EntryOutcome::Harvested { offered: 2, added: 1 }]);
    assert_eq!(engine.step(ScanEvent::Closed, true), ScanAction::Done);
    assert_eq!(engine.step(ScanEvent::Waited, false), ScanAction::Done);
    assert_eq!(names(&engine.into_result().unwrap()), vec!["One".to_string()]);
}

#[test]
fn an_abort_at_the_very_start_tunes_nothing() {
    let mut engine = engine_for(&[700_000_000], ScanOptions::default());
    let mut device = Device::new(vec![locking(700_000_000, 1, vec![service("One", 1, 700_000_000)])]);
    device.abort_once_tuned = Some(0);
    run(&mut engine, &mut device);
    assert!(device.tuned.is_empty());
    assert_eq!(
        device.actions,
        vec![
            ScanAction::Open(FrontendId { adapter_number: 0, frontend_number: 0 }),
            ScanAction::Close,
            ScanAction::Done,
        ]
    );
    assert_eq!(engine.into_result(), Ok(ChannelsData::empty()));
}

#[test]
fn a_rejected_tune_skips_the_entry_only() {
    let mut engine = engine_for(&[700_000_000, 750_000_000], ScanOptions::default());
    let mut refused = silent(700_000_000);
    refused.tune = Err(TuneError::Rejected);
    let mut device = Device::new(vec![
        refused,
        locking(750_000_000, 1, vec![service("Two", 2, 750_000_000)]),
    ]);
    run(&mut engine, &mut device);
    assert_eq!(device.polls, vec![0, 1]);
    assert_eq!(
        engine.outcomes(),
        vec![
            EntryOutcome::FailedSkipped(SkipReason::TuneFailed(TuneError::Rejected)),
            EntryOutcome::Harvested { offered: 1, added: 1 },
        ]
    );
    assert_eq!(names(&engine.into_result().unwrap()), vec!["Two".to_string()]);
}

#[test]
fn a_failed_table_read_adds_nothing_and_the_scan_goes_on() {
    let mut engine = engine_for(&[700_000_000, 750_000_000], ScanOptions::default());
    let mut broken = locking(700_000_000, 1, vec![service("One", 1, 700_000_000)]);
    broken.harvest_error = Some(HarvestError::Timeout);
    let mut device = Device::new(vec![
        broken,
        locking(750_000_000, 1, vec![service("Two", 2, 750_000_000)]),
    ]);
    run(&mut engine, &mut device);
    assert_eq!(
        engine.outcomes(),
        vec![
            EntryOutcome::HarvestFailed(HarvestError::Timeout),
            EntryOutcome::Harvested { offered: 1, added: 1 },
        ]
    );
    assert_eq!(count_skipped(&engine.outcomes()), 0);
    assert_eq!(engine.error(), None);
    assert_eq!(names(&engine.into_result().unwrap()), vec!["Two".to_string()]);
}

#[test]
fn a_locked_transponder_without_services_adds_nothing() {
    let mut engine = engine_for(&[700_000_000], ScanOptions::default());
    let mut device = Device::new(vec![locking(700_000_000, 1, Vec::new())]);
    run(&mut engine, &mut device);
    assert_eq!(engine.outcomes(), vec![EntryOutcome::Harvested { offered: 0, added: 0 }]);
    assert!(engine.into_result().unwrap().is_empty());
}

#[test]
fn a_service_seen_on_two_transponders_is_kept_once_per_frequency() {
    let mut engine = engine_for(&[700_000_000, 750_000_000], ScanOptions::default());
    let mut device = Device::new(vec![
        locking(
            700_000_000,
            1,
            vec![service("One", 1, 700_000_000), service("Two", 2, 700_000_000)],
        ),
        locking(
            750_000_000,
            1,
            vec![service("One", 1, 700_000_000), service("One", 1, 750_000_000)],
        ),
    ]);
    run(&mut engine, &mut device);
    assert_eq!(
        engine.outcomes(),
        vec![
            EntryOutcome::Harvested { offered: 2, added: 2 },
            EntryOutcome::Harvested { offered: 2, added: 1 },
        ]
    );
    let list = engine.into_result().unwrap();
    assert_eq!(list.len(), 3);
    assert_eq!(list.get(2).unwrap().transponder, terrestrial(750_000_000));
}

#[test]
fn detected_parameters_go_to_the_table_reader() {
    let mut engine = engine_for(&[700_000_000], ScanOptions::default());
    let mut drifting = locking(700_000_000, 1, Vec::new());
    drifting.detected = DeliverySystemParameters::terrestrial(700_166_000, 7_000_000);
    let mut device = Device::new(vec![drifting]);
    run(&mut engine, &mut device);
    assert_eq!(
        device.harvested_with,
        vec![DeliverySystemParameters::terrestrial(700_166_000, 7_000_000).unwrap()]
    );
}

#[test]
fn nominal_parameters_go_to_the_table_reader_when_detection_is_off() {
    let options = ScanOptions {
        use_detected_parameters: false,
        alternate_table_ids: true,
        timeout_multiplier: 3,
        ..ScanOptions::default()
    };
    let mut engine = engine_for(&[700_000_000], options);
    let mut drifting = locking(700_000_000, 1, Vec::new());
    drifting.detected = Some(terrestrial(700_166_000));
    let mut device = Device::new(vec![drifting]);
    run(&mut engine, &mut device);
    assert!(!device.actions.contains(&ScanAction::ReadDetected));
    assert!(device.actions.contains(&ScanAction::Harvest {
        index: 0,
        parameters: terrestrial(700_000_000),
        alternate_table_ids: true,
        timeout_multiplier: 3,
    }));
}

#[test]
fn nothing_is_harvested_when_harvesting_is_off() {
    let options = ScanOptions { harvest_from_tables: false, ..ScanOptions::default() };
    let mut engine = engine_for(&[700_000_000, 750_000_000], options);
    let mut device = Device::new(vec![
        locking(700_000_000, 2, vec![service("One", 1, 700_000_000)]),
        silent(750_000_000),
    ]);
    run(&mut engine, &mut device);
    assert!(device.harvested_with.is_empty());
    assert_eq!(
        engine.outcomes(),
        vec![EntryOutcome::LockedOnly, EntryOutcome::FailedSkipped(SkipReason::LockTimeout)]
    );
    assert!(engine.into_result().unwrap().is_empty());
}

#[test]
fn a_lost_device_closes_the_frontend_and_fails_the_scan() {
    let mut engine = engine_for(&[700_000_000, 750_000_000], ScanOptions::default());
    engine.step(ScanEvent::Start, false);
    engine.step(ScanEvent::Opened(Ok(())), false);
    assert_eq!(engine.step(ScanEvent::Tuned(Ok(())), false), ScanAction::Poll);
    assert_eq!(engine.step(ScanEvent::DeviceLost, false), ScanAction::Close);
    assert_eq!(engine.step(ScanEvent::DeviceLost, false), ScanAction::Rejected);
    assert_eq!(engine.step(ScanEvent::Closed, false), ScanAction::Done);
    assert_eq!(engine.into_result(), Err(ScanError::DeviceLost));
}

#[test]
fn an_engine_rejects_an_event_out_of_turn() {
    let mut engine = engine_for(&[700_000_000], ScanOptions::default());
    assert_eq!(engine.step(ScanEvent::Closed, false), ScanAction::Rejected);
    assert_eq!(engine.step(ScanEvent::DeviceLost, false), ScanAction::Rejected);
    assert_eq!(engine.phase(), ScanPhase::Idle);
    engine.step(ScanEvent::Start, false);
    assert_eq!(engine.step(ScanEvent::Start, false), ScanAction::Rejected);
    assert_eq!(engine.step(ScanEvent::Tuned(Ok(())), false), ScanAction::Rejected);
    assert_eq!(engine.phase(), ScanPhase::Opening);
    engine.step(ScanEvent::Opened(Ok(())), false);
    assert_eq!(engine.step(ScanEvent::Waited, false), ScanAction::Rejected);
    assert_eq!(engine.phase(), ScanPhase::Tuning);
    assert_eq!(engine.step(ScanEvent::Tuned(Ok(())), false), ScanAction::Poll);
    assert_eq!(engine.step(ScanEvent::Waited, false), ScanAction::Rejected);
    assert_eq!(engine.step(ScanEvent::Detected(None), false), ScanAction::Rejected);
    assert_eq!(engine.phase(), ScanPhase::Sampling);
    assert_eq!(engine.cursor(), 0);
    assert!(engine.outcomes().is_empty());
}

#[test]
fn an_empty_list_opens_and_closes_the_frontend() {
    let mut engine = engine_for(&[], ScanOptions::default());
    let mut device = Device::new(Vec::new());
    run(&mut engine, &mut device);
    assert_eq!(
        device.actions,
        vec![
            ScanAction::Open(FrontendId { adapter_number: 0, frontend_number: 0 }),
            ScanAction::Close,
            ScanAction::Done,
        ]
    );
    assert_eq!(engine.into_result(), Ok(ChannelsData::empty()));
}

#[test]
fn options_take_their_defaults_where_nothing_is_chosen() {
    let defaults = ScanOptions::from_choices(None, None, None, None, None);
    assert_eq!(defaults, ScanOptions::default());
    assert_eq!(
        defaults,
        ScanOptions {
            alternate_table_ids: false,
            timeout_multiplier: 1,
            use_detected_parameters: true,
            harvest_from_tables: true,
            discover_new_transponders: false,
        }
    );
    assert_eq!(
        ScanOptions::from_choices(Some(true), Some(4), Some(false), Some(false), Some(true)),
        ScanOptions {
            alternate_table_ids: true,
            timeout_multiplier: 4,
            use_detected_parameters: false,
            harvest_from_tables: false,
            discover_new_transponders: true,
        }
    );
}

#[test]
fn transmitter_data_keeps_its_entries_in_order() {
    let data = TransmitterData::new(vec![entry(490_000_000), entry(514_000_000)]);
    assert_eq!(data.len(), 2);
    assert!(!data.is_empty());
    assert_eq!(data.get(1), Some(&entry(514_000_000)));
    assert_eq!(data.get(2), None);
    assert_eq!(data.entries(), vec![entry(490_000_000), entry(514_000_000)]);
    assert!(TransmitterData::new(Vec::new()).is_empty());
}
