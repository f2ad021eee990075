//! Progress lines for a polling attempt.
//!
//! Rendering reads a snapshot and produces text. It takes no part in any
//! decision: neither the sampler nor the engine sees what is rendered.

use crate::status::{
    has_lock, reading_views, spec_has_lock, MetricKind, MetricReading, MetricReadingView,
    PollOutcome, StatusSnapshot, MAX_LAYERS,
};
use crate::text::{decimal, decimal_text};
use vstd::prelude::*;
use vstd::string::*;

verus! {

/// The number of metrics that a line can show.
pub const SHOWN_METRICS: usize = 7;

/// The metrics in the order in which a line shows them.
pub open spec fn display_order() -> Seq<MetricKind> {
    seq![
        MetricKind::Quality,
        MetricKind::Signal,
        MetricKind::CarrierToNoise,
        MetricKind::UncorrectedBlocks,
        MetricKind::PostBitErrorRate,
        MetricKind::PreBitErrorRate,
        MetricKind::PacketErrorRate,
    ]
}

/// The name under which a metric is shown.
pub open spec fn label(kind: MetricKind) -> Seq<char> {
    match kind {
        MetricKind::Quality => "Quality"@,
        MetricKind::Signal => "Signal"@,
        MetricKind::CarrierToNoise => "C/N"@,
        MetricKind::UncorrectedBlocks => "UCB"@,
        MetricKind::PostBitErrorRate => "postBER"@,
        MetricKind::PreBitErrorRate => "preBER"@,
        MetricKind::PacketErrorRate => "PER"@,
    }
}

/// The text of the first reading at or after position `from` that is of
/// `kind` on `layer`; `None` where there is no such reading.
pub open spec fn reading_from(
    readings: Seq<MetricReadingView>,
    kind: MetricKind,
    layer: u8,
    from: int,
) -> Option<Seq<char>>
    decreases readings.len() - from,
{
    if from < 0 || from >= readings.len() {
        None
    } else if readings[from].kind == kind && readings[from].layer == layer {
        Some(readings[from].text)
    } else {
        reading_from(readings, kind, layer, from + 1)
    }
}

/// The line of one layer, made of the first `shown` metrics of the display
/// order: each metric that has a reading appears as its label, `=` and the
/// reading's text, the fields one space apart. A metric without a reading
/// leaves no trace.
pub open spec fn layer_line(readings: Seq<MetricReadingView>, layer: u8, shown: int) -> Seq<char>
    decreases shown,
{
    if shown <= 0 {
        Seq::empty()
    } else {
        let before = layer_line(readings, layer, shown - 1);
        let kind = display_order()[shown - 1];
        match reading_from(readings, kind, layer, 0) {
            None => before,
            Some(text) => if before.len() == 0 {
                label(kind) + "="@ + text
            } else {
                before + " "@ + label(kind) + "="@ + text
            },
        }
    }
}

/// The lines of the first `layers` layers and their number. A layer without
/// any reading gives no line. Each line ends with a line feed, and every line
/// but the first starts with a tab.
pub open spec fn frame_body(readings: Seq<MetricReadingView>, layers: int) -> (Seq<char>, nat)
    decreases layers,
{
    if layers <= 0 {
        (Seq::empty(), 0)
    } else {
        let before = frame_body(readings, layers - 1);
        let line = layer_line(readings, (layers - 1) as u8, SHOWN_METRICS as int);
        if line.len() == 0 {
            before
        } else if before.1 == 0 {
            (before.0 + line + "\n"@, 1)
        } else {
            (before.0 + "\t"@ + line + "\n"@, before.1 + 1)
        }
    }
}

/// What precedes the lines. On a plain sink, nothing. On a terminal, the
/// sequence that moves the cursor up over the lines of the last frame and
/// clears them, if there were any, and then the colour of the lock state:
/// bold green when locked, yellow when not.
pub open spec fn frame_lead(locked: bool, interactive: bool, previous_lines: nat) -> Seq<char> {
    if !interactive {
        Seq::empty()
    } else {
        let colour = if locked {
            "\x1b[1;32m"@
        } else {
            "\x1b[33m"@
        };
        if previous_lines == 0 {
            colour
        } else {
            "\r\x1b["@ + decimal(previous_lines) + "A\x1b[J"@ + colour
        }
    }
}

/// The text of one frame.
pub open spec fn frame_text(
    readings: Seq<MetricReadingView>,
    locked: bool,
    interactive: bool,
    previous_lines: nat,
) -> Seq<char> {
    frame_lead(locked, interactive, previous_lines) + frame_body(readings, MAX_LAYERS as int).0
}

/// What ends the progress display: on a terminal the sequence that restores
/// the default colour and weight, on a plain sink nothing.
pub open spec fn reset_text(interactive: bool) -> Seq<char> {
    if interactive {
        "\x1b[22;39m"@
    } else {
        Seq::empty()
    }
}

/// The rendering of one polling attempt.
#[derive(Debug, PartialEq, Eq)]
pub struct ProgressFrame {
    /// What to write to the progress stream.
    pub text: String,
    /// How many lines the text holds.
    pub lines: u32,
}

/// The metric at position `position` of the display order.
fn shown_kind(position: usize) -> (kind: MetricKind)
    requires
        position < SHOWN_METRICS,
    ensures
        kind == display_order()[position as int],
{
    if position == 0 {
        MetricKind::Quality
    } else if position == 1 {
        MetricKind::Signal
    } else if position == 2 {
        MetricKind::CarrierToNoise
    } else if position == 3 {
        MetricKind::UncorrectedBlocks
    } else if position == 4 {
        MetricKind::PostBitErrorRate
    } else if position == 5 {
        MetricKind::PreBitErrorRate
    } else {
        MetricKind::PacketErrorRate
    }
}

/// The name under which a metric is shown.
fn label_text(kind: MetricKind) -> (text: &'static str)
    ensures
        text@ == label(kind),
{
    match kind {
        MetricKind::Quality => "Quality",
        MetricKind::Signal => "Signal",
        MetricKind::CarrierToNoise => "C/N",
        MetricKind::UncorrectedBlocks => "UCB",
        MetricKind::PostBitErrorRate => "postBER",
        MetricKind::PreBitErrorRate => "preBER",
        MetricKind::PacketErrorRate => "PER",
    }
}

/// The first reading of `kind` on `layer`, if there is one.
fn find_reading(readings: &Vec<MetricReading>, kind: MetricKind, layer: u8) -> (found: Option<
    &MetricReading,
>)
    ensures
        match found {
            Some(reading) => reading_from(reading_views(readings@), kind, layer, 0) == Some(
                reading.text@,
            ),
            None => reading_from(reading_views(readings@), kind, layer, 0).is_none(),
        },
{
    let mut i: usize = 0;
    while i < readings.len()
        invariant
            i <= readings.len(),
            reading_from(reading_views(readings@), kind, layer, 0) == reading_from(
                reading_views(readings@),
                kind,
                layer,
                i as int,
            ),
        decreases readings.len() - i,
    {
        if readings[i].kind == kind && readings[i].layer == layer {
            return Some(&readings[i]);
        }
        i += 1;
    }
    None
}

/// Renders the line of one layer.
fn render_layer(readings: &Vec<MetricReading>, layer: u8) -> (line: String)
    ensures
        line@ == layer_line(reading_views(readings@), layer, SHOWN_METRICS as int),
{
    let mut line = String::new();
    let mut shown: usize = 0;
    while shown < SHOWN_METRICS
        invariant
            shown <= SHOWN_METRICS,
            line@ == layer_line(reading_views(readings@), layer, shown as int),
        decreases SHOWN_METRICS - shown,
    {
        let kind = shown_kind(shown);
        let ghost before = line@;
        match find_reading(readings, kind, layer) {
            None => {},
            Some(reading) => {
                if !line.as_str().is_empty() {
                    line.append(" ");
                }
                line.append(label_text(kind));
                line.append("=");
                line.append(reading.text.as_str());
                assert(line@ == if before.len() == 0 {
                    label(kind) + "="@ + reading.text@
                } else {
                    before + " "@ + label(kind) + "="@ + reading.text@
                });
            },
        }
        shown += 1;
    }
    line
}

/// Renders readings as one frame of progress.
fn render_frame(
    readings: &Vec<MetricReading>,
    locked: bool,
    interactive: bool,
    previous_lines: u32,
) -> (frame: ProgressFrame)
    ensures
        frame.text@ == frame_text(
            reading_views(readings@),
            locked,
            interactive,
            previous_lines as nat,
        ),
        frame.lines == frame_body(reading_views(readings@), MAX_LAYERS as int).1,
        frame.lines <= MAX_LAYERS,
{
    let mut text = String::new();
    if interactive {
        if previous_lines != 0 {
            text.append("\r\x1b[");
            let count = decimal_text(previous_lines as u64);
            text.append(count.as_str());
            text.append("A\x1b[J");
        }
        if locked {
            text.append("\x1b[1;32m");
        } else {
            text.append("\x1b[33m");
        }
    }
    assert(text@ == frame_lead(locked, interactive, previous_lines as nat));
    let ghost lead = text@;
    let ghost views = reading_views(readings@);
    let mut lines: u32 = 0;
    let mut layer: u8 = 0;
    while layer < MAX_LAYERS
        invariant
            layer <= MAX_LAYERS,
            views == reading_views(readings@),
            text@ == lead + frame_body(views, layer as int).0,
            lines == frame_body(views, layer as int).1,
            lines <= layer,
        decreases MAX_LAYERS - layer,
    {
        let line = render_layer(readings, layer);
        if !line.as_str().is_empty() {
            if lines != 0 {
                text.append("\t");
            }
            text.append(line.as_str());
            text.append("\n");
            lines += 1;
        }
        assert(text@ == lead + frame_body(views, layer + 1).0);
        layer += 1;
    }
    ProgressFrame { text, lines }
}

/// Renders a snapshot as one frame of progress. `interactive` says whether
/// the progress stream is a terminal, and `previous_lines` how many lines the
/// frame before this one held.
pub fn render_progress(snapshot: &StatusSnapshot, interactive: bool, previous_lines: u32) -> (frame:
    ProgressFrame)
    ensures
        frame.text@ == frame_text(
            reading_views(snapshot.readings@),
            snapshot.locked,
            interactive,
            previous_lines as nat,
        ),
        frame.lines == frame_body(reading_views(snapshot.readings@), MAX_LAYERS as int).1,
        frame.lines <= MAX_LAYERS,
{
    render_frame(&snapshot.readings, snapshot.locked, interactive, previous_lines)
}

/// Renders what a polling attempt observed, before the outcome is handed
/// on: the frame of the snapshot that the outcome decodes to. An attempt that
/// read no status is not rendered.
pub fn render_outcome(outcome: &PollOutcome, interactive: bool, previous_lines: u32) -> (frame:
    Option<ProgressFrame>)
    ensures
        match *outcome {
            PollOutcome::Sampled { status, readings } => frame.is_some() && frame.unwrap().text@
                == frame_text(
                reading_views(readings@),
                spec_has_lock(status),
                interactive,
                previous_lines as nat,
            ) && frame.unwrap().lines == frame_body(reading_views(readings@), MAX_LAYERS as int).1,
            _ => frame.is_none(),
        },
{
    match outcome {
        PollOutcome::Sampled { status, readings } => Some(
            render_frame(readings, has_lock(*status), interactive, previous_lines),
        ),
        _ => None,
    }
}

/// Renders what ends the progress display.
pub fn render_reset(interactive: bool) -> (text: String)
    ensures
        text@ == reset_text(interactive),
{
    if interactive {
        String::from_str("\x1b[22;39m")
    } else {
        String::new()
    }
}

/// On a plain sink a frame is its lines and nothing else: no cursor movement
/// and no colour, whatever the lock state and whatever came before.
pub proof fn lemma_plain_frame_is_its_lines(
    readings: Seq<MetricReadingView>,
    locked: bool,
    previous_lines: nat,
)
    ensures
        frame_text(readings, locked, false, previous_lines) == frame_body(
            readings,
            MAX_LAYERS as int,
        ).0,
{
}

/// A layer on which no shown metric has a reading gives an empty line: no
/// value is made up for a metric that was not reported.
pub proof fn lemma_unreported_layer_is_empty(
    readings: Seq<MetricReadingView>,
    layer: u8,
    shown: int,
)
    requires
        shown <= SHOWN_METRICS,
        forall|position: int|
            0 <= position < shown ==> reading_from(
                readings,
                #[trigger] display_order()[position],
                layer,
                0,
            ).is_none(),
    ensures
        layer_line(readings, layer, shown).len() == 0,
    decreases shown,
{
    if shown > 0 {
        lemma_unreported_layer_is_empty(readings, layer, shown - 1);
        assert(reading_from(readings, display_order()[shown - 1], layer, 0).is_none());
    }
}

/// A snapshot without readings gives a frame without lines.
pub proof fn lemma_no_readings_no_lines(layers: int)
    requires
        layers <= MAX_LAYERS,
    ensures
        frame_body(Seq::empty(), layers) == (Seq::<char>::empty(), 0nat),
    decreases layers,
{
    if layers > 0 {
        lemma_no_readings_no_lines(layers - 1);
        lemma_unreported_layer_is_empty(Seq::empty(), (layers - 1) as u8, SHOWN_METRICS as int);
    }
}

} // verus!
