use dvb_tune::engine::{EntryOutcome, SkipReason};
use dvb_tune::error::{HarvestError, TuneError};
use dvb_tune::params::DeliverySystemParameters;
use dvb_tune::progress::{render_outcome, render_progress, render_reset, ProgressFrame};
use dvb_tune::report::count_skipped;
use dvb_tune::status::{MetricKind, MetricReading, PollOutcome, StatusSnapshot};
use dvb_tune::text::decimal_text;
use dvb_tune::transmitter::TransponderEntry;

fn reading(kind: MetricKind, layer: u8, text: &str) -> MetricReading {
    MetricReading { kind, layer, text: text.to_string() }
}

fn snapshot(locked: bool, readings: Vec<MetricReading>) -> StatusSnapshot {
    StatusSnapshot { locked, readings, sample_count: 1 }
}

#[test]
fn numbers_are_written_in_decimal() {
    assert_eq!(decimal_text(0), "0");
    assert_eq!(decimal_text(7), "7");
    assert_eq!(decimal_text(10), "10");
    assert_eq!(decimal_text(1234567890), "1234567890");
    assert_eq!(decimal_text(u64::MAX), "18446744073709551615");
}

#[test]
fn a_plain_frame_has_no_control_sequences() {
    let frame = render_progress(
        &snapshot(
            true,
            vec![
                reading(MetricKind::Signal, 0, "-45.00dBm"),
                reading(MetricKind::Quality, 0, "Good"),
                reading(MetricKind::CarrierToNoise, 0, "30.00dB"),
            ],
        ),
        false,
        2,
    );
    assert_eq!(
        frame,
        ProgressFrame {
            text: "Quality=Good Signal=-45.00dBm C/N=30.00dB\n".to_string(),
            lines: 1
        }
    );
    assert!(!frame.text.contains('\x1b'));
    assert_eq!(render_reset(false), "");
}

#[test]
fn a_missing_metric_is_left_out() {
    let frame = render_progress(
        &snapshot(false, vec![reading(MetricKind::UncorrectedBlocks, 0, "0")]),
        false,
        0,
    );
    assert_eq!(frame.text, "UCB=0\n");
    assert_eq!(frame.lines, 1);
}

#[test]
fn a_snapshot_without_readings_gives_no_line() {
    let frame = render_progress(&snapshot(false, Vec::new()), false, 3);
    assert_eq!(frame, ProgressFrame { text: String::new(), lines: 0 });
    let shown = render_progress(&snapshot(false, Vec::new()), true, 0);
    assert_eq!(shown, ProgressFrame { text: "\x1b[33m".to_string(), lines: 0 });
}

#[test]
fn every_metric_has_its_label_and_place() {
    let frame = render_progress(
        &snapshot(
            false,
            vec![
                reading(MetricKind::PacketErrorRate, 0, "g"),
                reading(MetricKind::PreBitErrorRate, 0, "f"),
                reading(MetricKind::PostBitErrorRate, 0, "e"),
                reading(MetricKind::UncorrectedBlocks, 0, "d"),
                reading(MetricKind::CarrierToNoise, 0, "c"),
                reading(MetricKind::Signal, 0, "b"),
                reading(MetricKind::Quality, 0, "a"),
            ],
        ),
        false,
        0,
    );
    assert_eq!(frame.text, "Quality=a Signal=b C/N=c UCB=d postBER=e preBER=f PER=g\n");
}

#[test]
fn the_first_reading_of_a_metric_is_shown() {
    let frame = render_progress(
        &snapshot(
            false,
            vec![reading(MetricKind::Signal, 0, "first"), reading(MetricKind::Signal, 0, "second")],
        ),
        false,
        0,
    );
    assert_eq!(frame.text, "Signal=first\n");
}

#[test]
fn layers_get_a_line_each_and_later_lines_a_tab() {
    let frame = render_progress(
        &snapshot(
            false,
            vec![
                reading(MetricKind::Signal, 0, "-45.00dBm"),
                reading(MetricKind::PostBitErrorRate, 1, "1e-3"),
                reading(MetricKind::PostBitErrorRate, 3, "2e-3"),
                reading(MetricKind::Quality, 3, "Poor"),
                reading(MetricKind::Quality, 4, "never shown"),
            ],
        ),
        false,
        0,
    );
    assert_eq!(frame.text, "Signal=-45.00dBm\n\tpostBER=1e-3\n\tQuality=Poor postBER=2e-3\n");
    assert_eq!(frame.lines, 3);
}

#[test]
fn a_terminal_frame_is_coloured_by_the_lock_state() {
    let readings = vec![reading(MetricKind::Signal, 0, "-45.00dBm")];
    let searching = render_progress(&snapshot(false, readings.clone()), true, 0);
    assert_eq!(searching.text, "\x1b[33mSignal=-45.00dBm\n");
    let locked = render_progress(&snapshot(true, readings), true, 0);
    assert_eq!(locked.text, "\x1b[1;32mSignal=-45.00dBm\n");
    assert_eq!(render_reset(true), "\x1b[22;39m");
}

#[test]
fn a_terminal_frame_first_clears_the_frame_before_it() {
    let readings = vec![reading(MetricKind::Signal, 0, "-45.00dBm")];
    let frame = render_progress(&snapshot(false, readings.clone()), true, 2);
    assert_eq!(frame.text, "\r\x1b[2A\x1b[J\x1b[33mSignal=-45.00dBm\n");
    let many = render_progress(&snapshot(true, readings), true, 12);
    assert_eq!(many.text, "\r\x1b[12A\x1b[J\x1b[1;32mSignal=-45.00dBm\n");
}

#[test]
fn an_entry_is_announced_with_what_is_known_of_it() {
    let bare = TransponderEntry::bare(
        DeliverySystemParameters::terrestrial(490_000_000, 8_000_000).unwrap(),
    );
    assert_eq!(bare.announcement(1), vec!["\nScanning frequency #1 490000000".to_string()]);
    let known = TransponderEntry {
        parameters: DeliverySystemParameters::cable(346_000_000, 6_900_000).unwrap(),
        known_channel_name: Some("BBC ONE".to_string()),
        known_virtual_channel: None,
        known_location: Some("Crystal Palace".to_string()),
    };
    assert_eq!(
        known.announcement(12),
        vec![
            "\nScanning frequency #12 346000000".to_string(),
            "Channel name: BBC ONE".to_string(),
            "Channel location: Crystal Palace".to_string(),
        ]
    );
    let numbered = TransponderEntry {
        known_virtual_channel: Some("101".to_string()),
        ..known.clone()
    };
    assert_eq!(numbered.announcement(2)[2], "Channel number: 101");
    assert_eq!(numbered.announcement(2).len(), 4);
}

#[test]
fn a_failed_entry_gets_one_line() {
    let tune = EntryOutcome::FailedSkipped(SkipReason::TuneFailed(TuneError::Unsupported));
    let lock = EntryOutcome::FailedSkipped(SkipReason::LockTimeout);
    let read = EntryOutcome::HarvestFailed(HarvestError::ReadFailed);
    let good = EntryOutcome::Harvested { offered: 2, added: 2 };
    assert_eq!(tune.diagnostic(), Some("Failed to initialise scan handler."));
    assert_eq!(lock.diagnostic(), Some("Failed to initialise scan handler."));
    assert_eq!(read.diagnostic(), Some("Failed to store some channels."));
    assert_eq!(good.diagnostic(), None);
    assert_eq!(EntryOutcome::LockedOnly.diagnostic(), None);
    assert_eq!(EntryOutcome::AbortedStop.diagnostic(), None);
    assert!(tune.is_skipped());
    assert!(!read.is_skipped());
    assert_eq!(count_skipped(&vec![tune, good, lock, read, EntryOutcome::AbortedStop]), 2);
    assert_eq!(count_skipped(&Vec::new()), 0);
}

#[test]
fn an_outcome_with_a_status_is_rendered_as_its_snapshot() {
    let readings = vec![reading(MetricKind::Signal, 0, "-45.00dBm")];
    let locked = PollOutcome::Sampled { status: 0x1f, readings: readings.clone() };
    assert_eq!(
        render_outcome(&locked, true, 1),
        Some(ProgressFrame {
            text: "\r\x1b[1A\x1b[J\x1b[1;32mSignal=-45.00dBm\n".to_string(),
            lines: 1
        })
    );
    assert_eq!(
        render_outcome(&locked, true, 1),
        Some(render_progress(&StatusSnapshot::decode(locked, 5), true, 1))
    );
    let searching = PollOutcome::Sampled { status: 0x03, readings };
    assert_eq!(
        render_outcome(&searching, false, 1),
        Some(ProgressFrame { text: "Signal=-45.00dBm\n".to_string(), lines: 1 })
    );
}

#[test]
fn an_outcome_without_a_status_is_reported_and_not_rendered() {
    assert_eq!(render_outcome(&PollOutcome::RefreshFailed, true, 2), None);
    assert_eq!(render_outcome(&PollOutcome::StatusUnavailable, false, 0), None);
    assert_eq!(PollOutcome::RefreshFailed.diagnostic(), Some("dvb_fe_get_stats failed."));
    assert_eq!(
        PollOutcome::StatusUnavailable.diagnostic(),
        Some("dvb_fe_retrieve_stats of DTV_STATUS failed.")
    );
    assert_eq!(PollOutcome::Sampled { status: 0, readings: Vec::new() }.diagnostic(), None);
}
