//! Frontend status as reported by the hardware, and its normalized form.

use vstd::prelude::*;

verus! {

/// Status bit: a signal was found.
pub const FE_HAS_SIGNAL: u32 = 0x01;

/// Status bit: a carrier was found.
pub const FE_HAS_CARRIER: u32 = 0x02;

/// Status bit: the inner error correction is stable.
pub const FE_HAS_VITERBI: u32 = 0x04;

/// Status bit: synchronization bytes were found.
pub const FE_HAS_SYNC: u32 = 0x08;

/// Status bit: the demodulator is locked to the transponder.
pub const FE_HAS_LOCK: u32 = 0x10;

/// The number of layers for which a frontend reports statistics.
pub const MAX_LAYERS: u8 = 4;

/// Whether the lock bit is set in a status bitfield.
pub open spec fn spec_has_lock(status: u32) -> bool {
    status & FE_HAS_LOCK != 0
}

/// Whether the lock bit is set in a status bitfield.
#[verifier::when_used_as_spec(spec_has_lock)]
pub fn has_lock(status: u32) -> (locked: bool)
    ensures
        locked == spec_has_lock(status),
{
    status & FE_HAS_LOCK != 0
}

/// The quality metrics that a progress line shows, in display order.
#[derive(Clone, Copy, Debug, PartialEq, Eq, Structural)]
pub enum MetricKind {
    Quality,
    Signal,
    CarrierToNoise,
    UncorrectedBlocks,
    PostBitErrorRate,
    PreBitErrorRate,
    PacketErrorRate,
}

/// The mathematical value of a [`MetricReading`].
pub ghost struct MetricReadingView {
    pub kind: MetricKind,
    pub layer: u8,
    pub text: Seq<char>,
}

/// One metric that the frontend reported for one layer. `text` is the value
/// as the frontend's own formatter wrote it. A metric that the driver does not
/// support has no reading.
#[derive(Debug, PartialEq, Eq)]
pub struct MetricReading {
    pub kind: MetricKind,
    pub layer: u8,
    pub text: String,
}

impl View for MetricReading {
    type V = MetricReadingView;

    open spec fn view(&self) -> MetricReadingView {
        MetricReadingView { kind: self.kind, layer: self.layer, text: self.text@ }
    }
}

impl Clone for MetricReading {
    fn clone(&self) -> (copy: Self)
        ensures
            copy == *self,
    {
        MetricReading { kind: self.kind, layer: self.layer, text: self.text.clone() }
    }
}

/// The views of a sequence of readings, element by element.
pub open spec fn reading_views(readings: Seq<MetricReading>) -> Seq<MetricReadingView> {
    Seq::new(readings.len(), |i: int| readings[i]@)
}

/// What one polling attempt observed.
#[derive(Debug, PartialEq, Eq)]
pub enum PollOutcome {
    /// The statistics could not be refreshed, so no status was read.
    RefreshFailed,
    /// The statistics were refreshed but hold no status.
    StatusUnavailable,
    /// The status bitfield and the metrics that came with it.
    Sampled { status: u32, readings: Vec<MetricReading> },
}

impl PollOutcome {
    /// Whether the attempt observed a lock.
    pub open spec fn spec_locked(&self) -> bool {
        match *self {
            PollOutcome::Sampled { status, .. } => spec_has_lock(status),
            _ => false,
        }
    }

    /// Whether the attempt observed a lock.
    #[verifier::when_used_as_spec(spec_locked)]
    pub fn locked(&self) -> (locked: bool)
        ensures
            locked == self.spec_locked(),
    {
        match self {
            PollOutcome::Sampled { status, .. } => has_lock(*status),
            _ => false,
        }
    }

    /// The readings of the attempt; none where no status was read.
    pub open spec fn spec_readings(&self) -> Seq<MetricReading> {
        match *self {
            PollOutcome::Sampled { readings, .. } => readings@,
            _ => Seq::empty(),
        }
    }
}

/// The normalized result of one poll.
#[derive(Debug, PartialEq, Eq)]
pub struct StatusSnapshot {
    /// Whether the demodulator is locked.
    pub locked: bool,
    /// The metrics that were reported, and no others.
    pub readings: Vec<MetricReading>,
    /// The number of polling attempts made when the snapshot was taken.
    pub sample_count: u32,
}

impl StatusSnapshot {
    /// The snapshot that an outcome with a status stands for.
    pub open spec fn spec_decode(outcome: PollOutcome, sample_count: u32) -> StatusSnapshot
        recommends
            outcome is Sampled,
    {
        StatusSnapshot {
            locked: outcome.spec_locked(),
            readings: outcome->readings,
            sample_count,
        }
    }

    /// Decodes what a poll observed: the lock bit becomes `locked`, the
    /// readings are taken over as they are, and an attempt without a status
    /// gives an unlocked snapshot without readings.
    pub fn decode(outcome: PollOutcome, sample_count: u32) -> (snapshot: StatusSnapshot)
        ensures
            snapshot.locked == outcome.spec_locked(),
            snapshot.readings@ == outcome.spec_readings(),
            snapshot.sample_count == sample_count,
            outcome is Sampled ==> snapshot == Self::spec_decode(outcome, sample_count),
    {
        match outcome {
            PollOutcome::Sampled { status, readings } => StatusSnapshot {
                locked: has_lock(status),
                readings,
                sample_count,
            },
            _ => StatusSnapshot { locked: false, readings: Vec::new(), sample_count },
        }
    }
}

/// Why no lock was acquired.
#[derive(Clone, Copy, Debug, PartialEq, Eq, Structural)]
pub enum FailureReason {
    /// Every polling attempt was used and none observed a lock.
    Timeout,
}

/// The terminal result of polling one tuned entry.
#[derive(Debug, PartialEq, Eq)]
pub enum ScanVerdict {
    /// A lock was observed; the snapshot is that of the attempt that saw it.
    Locked(StatusSnapshot),
    /// No lock was acquired.
    Failed(FailureReason),
    /// An abort was requested.
    Aborted,
}

} // verus!
