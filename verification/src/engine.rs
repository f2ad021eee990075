//! The scan as a state machine.
//!
//! A scan walks the transponder list in order. For each entry it has the
//! frontend tuned, polls for a lock, and on a lock has the tables read and
//! merges what they hold. The engine makes every decision and performs no
//! device access: it answers each event with the action that a driver is to
//! perform next.

use crate::channels::{distinct_keys, lemma_merge_all_distinct, merge_all, ChannelsData};
use crate::error::{HarvestError, OpenError, ScanError, TuneError};
use crate::options::ScanOptions;
use crate::params::{DeliverySystemParameters, FrontendId};
use crate::sampler::{
    lemma_sampler_step_keeps_wf, sampler_step, SamplerAction, SamplerEvent, SamplerView,
    StatusSampler,
};
use crate::service::{record_views, ServiceRecord, ServiceRecordView};
use crate::status::{PollOutcome, ScanVerdict};
use crate::transmitter::{TransmitterData, TransponderEntry};
use vstd::prelude::*;

verus! {

/// Where a scan stands.
#[derive(Clone, Copy, Debug, PartialEq, Eq, Structural)]
pub enum ScanPhase {
    /// Nothing was asked of the driver yet.
    Idle,
    /// The frontend is being opened.
    Opening,
    /// The frontend is being tuned to the entry under the cursor.
    Tuning,
    /// The entry under the cursor is polled for a lock.
    Sampling,
    /// The entry locked; the driver's own parameters are being read.
    LockedDetecting,
    /// The entry locked; its tables are being read.
    LockedHarvesting,
    /// The frontend is being closed.
    Closing,
    /// The scan is over.
    Finished,
}

/// Why an entry contributed nothing.
#[derive(Clone, Copy, Debug, PartialEq, Eq, Structural)]
pub enum SkipReason {
    /// The frontend did not accept the entry's parameters.
    TuneFailed(TuneError),
    /// No lock was seen within the polling budget.
    LockTimeout,
}

/// How the scan of one entry ended.
#[derive(Clone, Copy, Debug, PartialEq, Eq, Structural)]
pub enum EntryOutcome {
    /// The entry locked and its tables were read: they offered `offered`
    /// services, of which `added` were new to the channel list.
    Harvested { offered: usize, added: usize },
    /// The entry locked and harvesting is switched off.
    LockedOnly,
    /// The entry locked and the table reader failed.
    HarvestFailed(HarvestError),
    /// The entry failed to tune or to lock, and the scan went on.
    FailedSkipped(SkipReason),
    /// An abort was seen while the entry was polled, and the scan stopped.
    AbortedStop,
}

/// What the table reader found on a locked transponder.
#[derive(Debug, PartialEq, Eq)]
pub struct Harvest {
    /// The services, in table order.
    pub services: Vec<ServiceRecord>,
    /// The transponders that the tables name.
    pub transponders: Vec<DeliverySystemParameters>,
}

/// What a driver tells the engine.
#[derive(Debug, PartialEq, Eq)]
pub enum ScanEvent {
    /// The driver is ready to run the scan.
    Start,
    /// The frontend was opened, or could not be.
    Opened(Result<(), OpenError>),
    /// The frontend took the parameters, or did not.
    Tuned(Result<(), TuneError>),
    /// The requested poll was made and gave this outcome.
    Polled(PollOutcome),
    /// The requested wait is over.
    Waited,
    /// The parameters that the driver arrived at, where it reports any.
    Detected(Option<DeliverySystemParameters>),
    /// The tables were read, or could not be.
    Harvested(Result<Harvest, HarvestError>),
    /// The frontend was closed.
    Closed,
    /// The frontend vanished.
    DeviceLost,
}

/// What the engine tells a driver to do next.
#[derive(Clone, Copy, Debug, PartialEq, Eq, Structural)]
pub enum ScanAction {
    /// Open the frontend and report `Opened`.
    Open(FrontendId),
    /// Tune to the parameters of entry `index` and report `Tuned`.
    Tune { index: usize, parameters: DeliverySystemParameters },
    /// Refresh the statistics, read the status and report `Polled`.
    Poll,
    /// Sleep for `millis` milliseconds and report `Waited`.
    Wait { millis: u64 },
    /// Read the parameters that the driver arrived at and report `Detected`.
    ReadDetected,
    /// Read the tables of entry `index`, tuned with `parameters`, and report
    /// `Harvested`.
    Harvest {
        index: usize,
        parameters: DeliverySystemParameters,
        alternate_table_ids: bool,
        timeout_multiplier: u32,
    },
    /// Close the frontend and report `Closed`.
    Close,
    /// The scan is over; there is nothing left to do.
    Done,
    /// The event does not answer what the engine is waiting for. Nothing
    /// changed.
    Rejected,
}

/// The phases in which the frontend is held open and an entry is under way.
pub open spec fn is_active(phase: ScanPhase) -> bool {
    phase == ScanPhase::Tuning || phase == ScanPhase::Sampling || phase
        == ScanPhase::LockedDetecting || phase == ScanPhase::LockedHarvesting
}

/// The phases in which the run has neither ended nor begun to end.
pub open spec fn holds_no_verdict(phase: ScanPhase) -> bool {
    phase == ScanPhase::Idle || phase == ScanPhase::Opening || is_active(phase)
}

/// Whether the run failed because the frontend could not be acquired.
pub open spec fn is_resource_failure(error: Option<ScanError>) -> bool {
    error is Some && error->Some_0 is Resource
}

/// The mathematical state of a [`ScanEngine`].
pub ghost struct ScanEngineView {
    pub frontend: FrontendId,
    pub options: ScanOptions,
    /// The work list: the input entries, then those appended by discovery.
    pub entries: Seq<TransponderEntry>,
    /// The position of the entry under way, or of the next one.
    pub cursor: nat,
    pub phase: ScanPhase,
    /// The sampler of the entry under way.
    pub sampler: SamplerView,
    /// The services accumulated so far.
    pub channels: Seq<ServiceRecordView>,
    /// The transponders that the tables named and the list did not hold.
    pub discovered: Seq<DeliverySystemParameters>,
    /// One outcome for each entry that was dealt with, in order.
    pub outcomes: Seq<EntryOutcome>,
    /// The failure of the run, if there is one.
    pub error: Option<ScanError>,
}

impl ScanEngineView {
    /// The states that an engine can be in.
    pub open spec fn wf(self) -> bool {
        &&& self.cursor <= self.entries.len()
        &&& is_active(self.phase) ==> self.cursor < self.entries.len()
        &&& self.sampler.wf()
        &&& distinct_keys(self.channels)
        &&& holds_no_verdict(self.phase) ==> self.error is None
        &&& self.phase == ScanPhase::Closing ==> !is_resource_failure(self.error)
    }

    /// The state of a scan that has not started.
    pub open spec fn initial(
        frontend: FrontendId,
        options: ScanOptions,
        entries: Seq<TransponderEntry>,
    ) -> ScanEngineView {
        ScanEngineView {
            frontend,
            options,
            entries,
            cursor: 0,
            phase: ScanPhase::Idle,
            sampler: SamplerView::initial(),
            channels: Seq::empty(),
            discovered: Seq::empty(),
            outcomes: Seq::empty(),
            error: None,
        }
    }

    /// What the scan returns: the failure of the run if there is one, else
    /// the channels accumulated so far.
    pub open spec fn result(self) -> Result<Seq<ServiceRecordView>, ScanError> {
        match self.error {
            Some(error) => Err(error),
            None => Ok(self.channels),
        }
    }
}

/// Whether a transponder with these parameters is in the work list or was
/// noted before.
pub open spec fn is_known(
    entries: Seq<TransponderEntry>,
    discovered: Seq<DeliverySystemParameters>,
    parameters: DeliverySystemParameters,
) -> bool {
    ||| exists|i: int| 0 <= i < entries.len() && (#[trigger] entries[i]).parameters == parameters
    ||| exists|j: int| 0 <= j < discovered.len() && #[trigger] discovered[j] == parameters
}

/// The work list and the discovered list after one reported transponder is
/// noted. A known one changes nothing. A new one is recorded as discovered,
/// and joins the tail of the work list where `append` is set.
pub open spec fn note_one(
    lists: (Seq<TransponderEntry>, Seq<DeliverySystemParameters>),
    parameters: DeliverySystemParameters,
    append: bool,
) -> (Seq<TransponderEntry>, Seq<DeliverySystemParameters>) {
    if is_known(lists.0, lists.1, parameters) {
        lists
    } else if append {
        (lists.0.push(TransponderEntry::spec_bare(parameters)), lists.1.push(parameters))
    } else {
        (lists.0, lists.1.push(parameters))
    }
}

/// The two lists after the transponders of `found` are noted, first to last.
pub open spec fn note_all(
    lists: (Seq<TransponderEntry>, Seq<DeliverySystemParameters>),
    found: Seq<DeliverySystemParameters>,
    append: bool,
) -> (Seq<TransponderEntry>, Seq<DeliverySystemParameters>)
    decreases found.len(),
{
    if found.len() == 0 {
        lists
    } else {
        note_one(note_all(lists, found.drop_last(), append), found.last(), append)
    }
}

/// The start of an entry. A requested abort, or the end of the list, closes
/// the frontend; otherwise the entry under the cursor is tuned.
pub open spec fn begin_entry(state: ScanEngineView, abort_requested: bool) -> (
    ScanEngineView,
    ScanAction,
) {
    if abort_requested || state.cursor >= state.entries.len() {
        (ScanEngineView { phase: ScanPhase::Closing, ..state }, ScanAction::Close)
    } else {
        (
            ScanEngineView { phase: ScanPhase::Tuning, ..state },
            ScanAction::Tune {
                index: state.cursor as usize,
                parameters: state.entries[state.cursor as int].parameters,
            },
        )
    }
}

/// The end of an entry: its outcome is recorded, the cursor moves on, and the
/// next entry begins.
pub open spec fn finish_entry(
    state: ScanEngineView,
    outcome: EntryOutcome,
    abort_requested: bool,
) -> (ScanEngineView, ScanAction) {
    begin_entry(
        ScanEngineView {
            outcomes: state.outcomes.push(outcome),
            cursor: state.cursor + 1,
            ..state
        },
        abort_requested,
    )
}

/// The scan stops for an abort seen while the entry under the cursor was
/// polled.
pub open spec fn stop_for_abort(state: ScanEngineView) -> (ScanEngineView, ScanAction) {
    (
        ScanEngineView {
            outcomes: state.outcomes.push(EntryOutcome::AbortedStop),
            phase: ScanPhase::Closing,
            ..state
        },
        ScanAction::Close,
    )
}

/// The request to read the tables of the entry under the cursor.
pub open spec fn harvest_request(
    state: ScanEngineView,
    parameters: DeliverySystemParameters,
) -> (ScanEngineView, ScanAction) {
    (
        ScanEngineView { phase: ScanPhase::LockedHarvesting, ..state },
        ScanAction::Harvest {
            index: state.cursor as usize,
            parameters,
            alternate_table_ids: state.options.alternate_table_ids,
            timeout_multiplier: state.options.timeout_multiplier,
        },
    )
}

/// What follows a lock, by the options.
pub open spec fn after_lock(state: ScanEngineView, abort_requested: bool) -> (
    ScanEngineView,
    ScanAction,
) {
    if !state.options.harvest_from_tables {
        finish_entry(state, EntryOutcome::LockedOnly, abort_requested)
    } else if state.options.use_detected_parameters {
        (ScanEngineView { phase: ScanPhase::LockedDetecting, ..state }, ScanAction::ReadDetected)
    } else {
        harvest_request(state, state.entries[state.cursor as int].parameters)
    }
}

/// What follows an answer of the sampler.
pub open spec fn after_sampler(
    state: ScanEngineView,
    sampled: (SamplerView, SamplerAction),
    abort_requested: bool,
) -> (ScanEngineView, ScanAction) {
    let moved = ScanEngineView { phase: ScanPhase::Sampling, sampler: sampled.0, ..state };
    match sampled.1 {
        SamplerAction::Poll => (moved, ScanAction::Poll),
        SamplerAction::Wait { millis } => (moved, ScanAction::Wait { millis }),
        SamplerAction::Rejected => (state, ScanAction::Rejected),
        SamplerAction::Finished(ScanVerdict::Aborted) => stop_for_abort(moved),
        SamplerAction::Finished(ScanVerdict::Failed(_)) => finish_entry(
            moved,
            EntryOutcome::FailedSkipped(SkipReason::LockTimeout),
            abort_requested,
        ),
        SamplerAction::Finished(ScanVerdict::Locked(_)) => after_lock(moved, abort_requested),
    }
}

/// What follows a successful read of the tables: the services are merged, the
/// reported transponders are noted, and the entry ends.
pub open spec fn after_harvest(
    state: ScanEngineView,
    services: Seq<ServiceRecordView>,
    transponders: Seq<DeliverySystemParameters>,
    abort_requested: bool,
) -> (ScanEngineView, ScanAction) {
    let channels = merge_all(state.channels, services);
    let lists = note_all(
        (state.entries, state.discovered),
        transponders,
        state.options.discover_new_transponders,
    );
    finish_entry(
        ScanEngineView { channels, entries: lists.0, discovered: lists.1, ..state },
        EntryOutcome::Harvested {
            offered: services.len() as usize,
            added: (channels.len() - state.channels.len()) as usize,
        },
        abort_requested,
    )
}

/// One transition of the engine: the state after `event` and the action asked
/// of the driver. `abort_requested` is the abort flag as the driver read it
/// just before the call. It is looked at only where an entry or a polling
/// attempt is about to start.
pub open spec fn scan_step(state: ScanEngineView, event: ScanEvent, abort_requested: bool) -> (
    ScanEngineView,
    ScanAction,
) {
    match (state.phase, event) {
        (ScanPhase::Finished, _) => (state, ScanAction::Done),
        (ScanPhase::Idle, ScanEvent::Start) => (
            ScanEngineView { phase: ScanPhase::Opening, ..state },
            ScanAction::Open(state.frontend),
        ),
        (ScanPhase::Opening, ScanEvent::Opened(Ok(_))) => begin_entry(state, abort_requested),
        (ScanPhase::Opening, ScanEvent::Opened(Err(error))) => (
            ScanEngineView {
                phase: ScanPhase::Finished,
                error: Some(ScanError::Resource(error)),
                ..state
            },
            ScanAction::Done,
        ),
        (ScanPhase::Closing, ScanEvent::Closed) => (
            ScanEngineView { phase: ScanPhase::Finished, ..state },
            ScanAction::Done,
        ),
        (ScanPhase::Tuning, ScanEvent::DeviceLost)
        | (ScanPhase::Sampling, ScanEvent::DeviceLost)
        | (ScanPhase::LockedDetecting, ScanEvent::DeviceLost)
        | (ScanPhase::LockedHarvesting, ScanEvent::DeviceLost) => (
            ScanEngineView {
                phase: ScanPhase::Closing,
                error: Some(ScanError::DeviceLost),
                ..state
            },
            ScanAction::Close,
        ),
        (ScanPhase::Tuning, ScanEvent::Tuned(Ok(_))) => after_sampler(
            state,
            sampler_step(SamplerView::initial(), SamplerEvent::Ready, abort_requested),
            abort_requested,
        ),
        (ScanPhase::Tuning, ScanEvent::Tuned(Err(error))) => finish_entry(
            state,
            EntryOutcome::FailedSkipped(SkipReason::TuneFailed(error)),
            abort_requested,
        ),
        (ScanPhase::Sampling, ScanEvent::Polled(outcome)) => after_sampler(
            state,
            sampler_step(state.sampler, SamplerEvent::Polled(outcome), abort_requested),
            abort_requested,
        ),
        (ScanPhase::Sampling, ScanEvent::Waited) => after_sampler(
            state,
            sampler_step(state.sampler, SamplerEvent::Ready, abort_requested),
            abort_requested,
        ),
        (ScanPhase::LockedDetecting, ScanEvent::Detected(detected)) => harvest_request(
            state,
            match detected {
                Some(parameters) => parameters,
                None => state.entries[state.cursor as int].parameters,
            },
        ),
        (ScanPhase::LockedHarvesting, ScanEvent::Harvested(Ok(harvest))) => after_harvest(
            state,
            record_views(harvest.services@),
            harvest.transponders@,
            abort_requested,
        ),
        (ScanPhase::LockedHarvesting, ScanEvent::Harvested(Err(error))) => finish_entry(
            state,
            EntryOutcome::HarvestFailed(error),
            abort_requested,
        ),
        _ => (state, ScanAction::Rejected),
    }
}

/// The fields of an engine, held loosely while a transition is worked out.
#[derive(Debug)]
struct Parts {
    frontend: FrontendId,
    options: ScanOptions,
    entries: Vec<TransponderEntry>,
    cursor: usize,
    phase: ScanPhase,
    sampler: StatusSampler,
    channels: ChannelsData,
    discovered: Vec<DeliverySystemParameters>,
    outcomes: Vec<EntryOutcome>,
    error: Option<ScanError>,
}

impl View for Parts {
    type V = ScanEngineView;

    closed spec fn view(&self) -> ScanEngineView {
        ScanEngineView {
            frontend: self.frontend,
            options: self.options,
            entries: self.entries@,
            cursor: self.cursor as nat,
            phase: self.phase,
            sampler: self.sampler@,
            channels: self.channels@,
            discovered: self.discovered@,
            outcomes: self.outcomes@,
            error: self.error,
        }
    }
}

/// Decides, event by event, how a list of transponders is scanned.
#[derive(Debug)]
pub struct ScanEngine {
    parts: Parts,
}

impl View for ScanEngine {
    type V = ScanEngineView;

    closed spec fn view(&self) -> ScanEngineView {
        self.parts@
    }
}

/// Whether a transponder with these parameters is in the work list or was
/// noted before.
fn known(
    entries: &Vec<TransponderEntry>,
    discovered: &Vec<DeliverySystemParameters>,
    parameters: DeliverySystemParameters,
) -> (found: bool)
    ensures
        found == is_known(entries@, discovered@, parameters),
{
    let mut i: usize = 0;
    while i < entries.len()
        invariant
            i <= entries.len(),
            forall|k: int| 0 <= k < i ==> (#[trigger] entries@[k]).parameters != parameters,
        decreases entries.len() - i,
    {
        if entries[i].parameters == parameters {
            return true;
        }
        i += 1;
    }
    let mut j: usize = 0;
    while j < discovered.len()
        invariant
            j <= discovered.len(),
            forall|k: int| 0 <= k < entries.len() ==> (#[trigger] entries@[k]).parameters != parameters,
            forall|k: int| 0 <= k < j ==> #[trigger] discovered@[k] != parameters,
        decreases discovered.len() - j,
    {
        if discovered[j] == parameters {
            return true;
        }
        j += 1;
    }
    false
}

/// Notes the transponders of `found`, first to last, as [`note_all`] defines.
fn note_transponders(
    entries: &mut Vec<TransponderEntry>,
    discovered: &mut Vec<DeliverySystemParameters>,
    found: &Vec<DeliverySystemParameters>,
    append: bool,
)
    ensures
        (final(entries)@, final(discovered)@) == note_all(
            (old(entries)@, old(discovered)@),
            found@,
            append,
        ),
        final(entries)@.len() >= old(entries)@.len(),
{
    let mut i: usize = 0;
    while i < found.len()
        invariant
            i <= found.len(),
            (entries@, discovered@) == note_all(
                (old(entries)@, old(discovered)@),
                found@.take(i as int),
                append,
            ),
            entries@.len() >= old(entries)@.len(),
        decreases found.len() - i,
    {
        assert(found@.take(i + 1).drop_last() == found@.take(i as int));
        let parameters = found[i];
        if !known(entries, discovered, parameters) {
            discovered.push(parameters);
            if append {
                entries.push(TransponderEntry::bare(parameters));
            }
        }
        i += 1;
    }
    assert(found@.take(i as int) == found@);
}

impl Parts {
    /// The start of an entry, as [`begin_entry`] defines.
    fn begin_entry(self, abort_requested: bool) -> (next: (Parts, ScanAction))
        requires
            self@.cursor <= self@.entries.len(),
        ensures
            (next.0@, next.1) == begin_entry(self@, abort_requested),
    {
        let mut parts = self;
        if abort_requested || parts.cursor >= parts.entries.len() {
            parts.phase = ScanPhase::Closing;
            (parts, ScanAction::Close)
        } else {
            parts.phase = ScanPhase::Tuning;
            let action = ScanAction::Tune {
                index: parts.cursor,
                parameters: parts.entries[parts.cursor].parameters,
            };
            (parts, action)
        }
    }

    /// The end of an entry, as [`finish_entry`] defines.
    fn finish_entry(self, outcome: EntryOutcome, abort_requested: bool) -> (next: (
        Parts,
        ScanAction,
    ))
        requires
            self@.cursor < self@.entries.len(),
        ensures
            (next.0@, next.1) == finish_entry(self@, outcome, abort_requested),
    {
        let mut parts = self;
        assert(parts.cursor < parts.entries.len());
        parts.outcomes.push(outcome);
        parts.cursor = parts.cursor + 1;
        parts.begin_entry(abort_requested)
    }

    /// The request to read the tables, as [`harvest_request`] defines.
    fn harvest_request(self, parameters: DeliverySystemParameters) -> (next: (Parts, ScanAction))
        ensures
            (next.0@, next.1) == harvest_request(self@, parameters),
    {
        let mut parts = self;
        parts.phase = ScanPhase::LockedHarvesting;
        let action = ScanAction::Harvest {
            index: parts.cursor,
            parameters,
            alternate_table_ids: parts.options.alternate_table_ids,
            timeout_multiplier: parts.options.timeout_multiplier,
        };
        (parts, action)
    }

    /// One event for the sampler, and what follows its answer, as
    /// [`after_sampler`] defines.
    fn sample(self, sampler: StatusSampler, event: SamplerEvent, abort_requested: bool) -> (next: (
        Parts,
        ScanAction,
    ))
        requires
            self@.cursor < self@.entries.len(),
        ensures
            (next.0@, next.1) == after_sampler(
                self@,
                sampler_step(sampler@, event, abort_requested),
                abort_requested,
            ),
    {
        let mut parts = self;
        let mut sampler = sampler;
        let answer = sampler.step(event, abort_requested);
        match answer {
            SamplerAction::Rejected => (parts, ScanAction::Rejected),
            SamplerAction::Poll => {
                parts.phase = ScanPhase::Sampling;
                parts.sampler = sampler;
                (parts, ScanAction::Poll)
            },
            SamplerAction::Wait { millis } => {
                parts.phase = ScanPhase::Sampling;
                parts.sampler = sampler;
                (parts, ScanAction::Wait { millis })
            },
            SamplerAction::Finished(ScanVerdict::Aborted) => {
                parts.sampler = sampler;
                parts.outcomes.push(EntryOutcome::AbortedStop);
                parts.phase = ScanPhase::Closing;
                (parts, ScanAction::Close)
            },
            SamplerAction::Finished(ScanVerdict::Failed(_)) => {
                parts.phase = ScanPhase::Sampling;
                parts.sampler = sampler;
                parts.finish_entry(
                    EntryOutcome::FailedSkipped(SkipReason::LockTimeout),
                    abort_requested,
                )
            },
            SamplerAction::Finished(ScanVerdict::Locked(_)) => {
                parts.phase = ScanPhase::Sampling;
                parts.sampler = sampler;
                if !parts.options.harvest_from_tables {
                    parts.finish_entry(EntryOutcome::LockedOnly, abort_requested)
                } else if parts.options.use_detected_parameters {
                    parts.phase = ScanPhase::LockedDetecting;
                    (parts, ScanAction::ReadDetected)
                } else {
                    let nominal = parts.entries[parts.cursor].parameters;
                    parts.harvest_request(nominal)
                }
            },
        }
    }

    /// The merge of what the tables held, as [`after_harvest`] defines.
    fn take_harvest(self, harvest: Harvest, abort_requested: bool) -> (next: (Parts, ScanAction))
        requires
            self@.cursor < self@.entries.len(),
        ensures
            (next.0@, next.1) == after_harvest(
                self@,
                record_views(harvest.services@),
                harvest.transponders@,
                abort_requested,
            ),
    {
        let mut parts = self;
        let added = parts.channels.merge_many(&harvest.services);
        note_transponders(
            &mut parts.entries,
            &mut parts.discovered,
            &harvest.transponders,
            parts.options.discover_new_transponders,
        );
        let outcome = EntryOutcome::Harvested { offered: harvest.services.len(), added };
        parts.finish_entry(outcome, abort_requested)
    }

    /// One transition, as [`scan_step`] defines.
    fn advance(self, event: ScanEvent, abort_requested: bool) -> (next: (Parts, ScanAction))
        requires
            self@.wf(),
        ensures
            (next.0@, next.1) == scan_step(self@, event, abort_requested),
    {
        let mut parts = self;
        match (parts.phase, event) {
            (ScanPhase::Finished, _) => (parts, ScanAction::Done),
            (ScanPhase::Idle, ScanEvent::Start) => {
                parts.phase = ScanPhase::Opening;
                let action = ScanAction::Open(parts.frontend);
                (parts, action)
            },
            (ScanPhase::Opening, ScanEvent::Opened(Ok(_))) => parts.begin_entry(abort_requested),
            (ScanPhase::Opening, ScanEvent::Opened(Err(error))) => {
                parts.phase = ScanPhase::Finished;
                parts.error = Some(ScanError::Resource(error));
                (parts, ScanAction::Done)
            },
            (ScanPhase::Closing, ScanEvent::Closed) => {
                parts.phase = ScanPhase::Finished;
                (parts, ScanAction::Done)
            },
            (ScanPhase::Tuning, ScanEvent::DeviceLost)
            | (ScanPhase::Sampling, ScanEvent::DeviceLost)
            | (ScanPhase::LockedDetecting, ScanEvent::DeviceLost)
            | (ScanPhase::LockedHarvesting, ScanEvent::DeviceLost) => {
                parts.phase = ScanPhase::Closing;
                parts.error = Some(ScanError::DeviceLost);
                (parts, ScanAction::Close)
            },
            (ScanPhase::Tuning, ScanEvent::Tuned(Ok(_))) => parts.sample(
                StatusSampler::new(),
                SamplerEvent::Ready,
                abort_requested,
            ),
            (ScanPhase::Tuning, ScanEvent::Tuned(Err(error))) => parts.finish_entry(
                EntryOutcome::FailedSkipped(SkipReason::TuneFailed(error)),
                abort_requested,
            ),
            (ScanPhase::Sampling, ScanEvent::Polled(outcome)) => {
                let sampler = parts.sampler;
                parts.sample(sampler, SamplerEvent::Polled(outcome), abort_requested)
            },
            (ScanPhase::Sampling, ScanEvent::Waited) => {
                let sampler = parts.sampler;
                parts.sample(sampler, SamplerEvent::Ready, abort_requested)
            },
            (ScanPhase::LockedDetecting, ScanEvent::Detected(detected)) => {
                let parameters = match detected {
                    Some(parameters) => parameters,
                    None => parts.entries[parts.cursor].parameters,
                };
                parts.harvest_request(parameters)
            },
            (ScanPhase::LockedHarvesting, ScanEvent::Harvested(Ok(harvest))) => parts.take_harvest(
                harvest,
                abort_requested,
            ),
            (ScanPhase::LockedHarvesting, ScanEvent::Harvested(Err(error))) => parts.finish_entry(
                EntryOutcome::HarvestFailed(error),
                abort_requested,
            ),
            _ => (parts, ScanAction::Rejected),
        }
    }
}

impl ScanEngine {
    #[verifier::type_invariant]
    spec fn well_formed(self) -> bool {
        self@.wf()
    }

    fn into_parts(self) -> (parts: Parts)
        ensures
            parts@ == self@,
            parts@.wf(),
    {
        proof {
            use_type_invariant(&self);
        }
        self.parts
    }

    fn from_parts(parts: Parts) -> (engine: ScanEngine)
        requires
            parts@.wf(),
        ensures
            engine@ == parts@,
    {
        ScanEngine { parts }
    }

    /// An engine for a scan of `entries` on the frontend `frontend` that has
    /// not started.
    pub fn new(frontend: FrontendId, options: ScanOptions, entries: Vec<TransponderEntry>) -> (engine:
        ScanEngine)
        ensures
            engine@ == ScanEngineView::initial(frontend, options, entries@),
            engine@.wf(),
    {
        ScanEngine {
            parts: Parts {
                frontend,
                options,
                entries,
                cursor: 0,
                phase: ScanPhase::Idle,
                sampler: StatusSampler::new(),
                channels: ChannelsData::empty(),
                discovered: Vec::new(),
                outcomes: Vec::new(),
                error: None,
            },
        }
    }

    /// Takes one event and says what to do next, as [`scan_step`] defines.
    pub fn step(&mut self, event: ScanEvent, abort_requested: bool) -> (action: ScanAction)
        ensures
            (final(self)@, action) == scan_step(old(self)@, event, abort_requested),
            final(self)@.wf(),
    {
        let mut current = ScanEngine::new(
            FrontendId { adapter_number: 0, frontend_number: 0 },
            ScanOptions::default(),
            Vec::new(),
        );
        core::mem::swap(self, &mut current);
        let parts = current.into_parts();
        proof {
            lemma_step_keeps_wf(parts@, event, abort_requested);
        }
        let (next, action) = parts.advance(event, abort_requested);
        *self = ScanEngine::from_parts(next);
        action
    }
}

impl ScanEngine {
    /// Where the scan stands.
    pub fn phase(&self) -> (phase: ScanPhase)
        ensures
            phase == self@.phase,
    {
        self.parts.phase
    }

    /// Whether the scan is over.
    pub fn is_finished(&self) -> (over: bool)
        ensures
            over == (self@.phase == ScanPhase::Finished),
    {
        self.parts.phase == ScanPhase::Finished
    }

    /// The position of the entry under way, or of the next one. It never
    /// passes the end of the work list.
    pub fn cursor(&self) -> (position: usize)
        ensures
            position == self@.cursor,
            position <= self@.entries.len(),
    {
        proof {
            use_type_invariant(self);
        }
        self.parts.cursor
    }

    /// The length of the work list.
    pub fn entry_count(&self) -> (count: usize)
        ensures
            count == self@.entries.len(),
    {
        self.parts.entries.len()
    }

    /// The entry at position `index` of the work list, if there is one.
    pub fn entry(&self, index: usize) -> (found: Option<&TransponderEntry>)
        ensures
            index < self@.entries.len() ==> found == Some(&self@.entries[index as int]),
            index >= self@.entries.len() ==> found.is_none(),
    {
        if index < self.parts.entries.len() {
            Some(&self.parts.entries[index])
        } else {
            None
        }
    }

    /// The services accumulated so far.
    pub fn channels(&self) -> (list: &ChannelsData)
        ensures
            list@ == self@.channels,
    {
        &self.parts.channels
    }

    /// The transponders that the tables named and the list did not hold, in
    /// the order in which they were first reported.
    pub fn discovered(&self) -> (copy: Vec<DeliverySystemParameters>)
        ensures
            copy@ == self@.discovered,
    {
        let mut copy: Vec<DeliverySystemParameters> = Vec::new();
        let mut i: usize = 0;
        while i < self.parts.discovered.len()
            invariant
                i <= self.parts.discovered.len(),
                copy@ == self.parts.discovered@.take(i as int),
            decreases self.parts.discovered.len() - i,
        {
            copy.push(self.parts.discovered[i]);
            assert(copy@ == self.parts.discovered@.take(i + 1));
            i += 1;
        }
        assert(self.parts.discovered@.take(i as int) == self.parts.discovered@);
        copy
    }

    /// The outcomes of the entries dealt with so far, in order.
    pub fn outcomes(&self) -> (copy: Vec<EntryOutcome>)
        ensures
            copy@ == self@.outcomes,
    {
        let mut copy: Vec<EntryOutcome> = Vec::new();
        let mut i: usize = 0;
        while i < self.parts.outcomes.len()
            invariant
                i <= self.parts.outcomes.len(),
                copy@ == self.parts.outcomes@.take(i as int),
            decreases self.parts.outcomes.len() - i,
        {
            copy.push(self.parts.outcomes[i]);
            assert(copy@ == self.parts.outcomes@.take(i + 1));
            i += 1;
        }
        assert(self.parts.outcomes@.take(i as int) == self.parts.outcomes@);
        copy
    }

    /// The failure of the run, if there is one.
    pub fn error(&self) -> (error: Option<ScanError>)
        ensures
            error == self@.error,
    {
        self.parts.error
    }

    /// What the scan returns: the failure of the run if there is one, else
    /// the channels accumulated so far, be the scan complete or cut short.
    pub fn into_result(self) -> (result: Result<ChannelsData, ScanError>)
        ensures
            match result {
                Ok(list) => self@.result() == Ok::<Seq<ServiceRecordView>, ScanError>(list@),
                Err(error) => self@.result() == Err::<Seq<ServiceRecordView>, ScanError>(error),
            },
    {
        let parts = self.into_parts();
        match parts.error {
            Some(error) => Err(error),
            None => Ok(parts.channels),
        }
    }
}

impl TransmitterData {
    /// Prepares a scan of these transponders on the frontend `frontend_id`.
    /// Each option that is `None` takes its default. The engine that comes
    /// back has not started: a driver hands it `Start` and then performs what
    /// it asks for.
    pub fn scan(
        &self,
        frontend_id: &FrontendId,
        alternate_table_ids: Option<bool>,
        timeout_multiplier: Option<u32>,
        use_detected_parameters: Option<bool>,
        harvest_from_tables: Option<bool>,
        discover_new_transponders: Option<bool>,
    ) -> (engine: ScanEngine)
        ensures
            engine@ == ScanEngineView::initial(
                *frontend_id,
                ScanOptions::spec_from_choices(
                    alternate_table_ids,
                    timeout_multiplier,
                    use_detected_parameters,
                    harvest_from_tables,
                    discover_new_transponders,
                ),
                self@,
            ),
            engine@.wf(),
    {
        let options = ScanOptions::from_choices(
            alternate_table_ids,
            timeout_multiplier,
            use_detected_parameters,
            harvest_from_tables,
            discover_new_transponders,
        );
        ScanEngine::new(*frontend_id, options, self.entries())
    }
}

/// Noting transponders keeps the work list as it was and at most adds to its
/// tail; without `append` the work list does not change at all.
pub proof fn lemma_note_all_grows(
    lists: (Seq<TransponderEntry>, Seq<DeliverySystemParameters>),
    found: Seq<DeliverySystemParameters>,
    append: bool,
)
    ensures
        note_all(lists, found, append).0.len() >= lists.0.len(),
        note_all(lists, found, append).0.subrange(0, lists.0.len() as int) == lists.0,
        !append ==> note_all(lists, found, append).0 == lists.0,
    decreases found.len(),
{
    if found.len() > 0 {
        lemma_note_all_grows(lists, found.drop_last(), append);
        let before = note_all(lists, found.drop_last(), append);
        let after = note_one(before, found.last(), append);
        assert(after.0.subrange(0, lists.0.len() as int) == before.0.subrange(
            0,
            lists.0.len() as int,
        ));
    } else {
        assert(lists.0.subrange(0, lists.0.len() as int) == lists.0);
    }
}

/// Noting a transponder forgets none: what was known stays known.
pub proof fn lemma_note_one_keeps_known(
    lists: (Seq<TransponderEntry>, Seq<DeliverySystemParameters>),
    parameters: DeliverySystemParameters,
    append: bool,
    other: DeliverySystemParameters,
)
    requires
        is_known(lists.0, lists.1, other),
    ensures
        is_known(
            note_one(lists, parameters, append).0,
            note_one(lists, parameters, append).1,
            other,
        ),
{
    let after = note_one(lists, parameters, append);
    if exists|i: int| 0 <= i < lists.0.len() && (#[trigger] lists.0[i]).parameters == other {
        let i = choose|i: int| 0 <= i < lists.0.len() && (#[trigger] lists.0[i]).parameters == other;
        assert(after.0[i].parameters == other);
    } else {
        let j = choose|j: int| 0 <= j < lists.1.len() && #[trigger] lists.1[j] == other;
        assert(after.1[j] == other);
    }
}

/// After the transponders of `found` are noted, each of them is known: it was
/// in the work list or among the discovered before, or it is among the
/// discovered now.
pub proof fn lemma_note_all_knows_what_was_found(
    lists: (Seq<TransponderEntry>, Seq<DeliverySystemParameters>),
    found: Seq<DeliverySystemParameters>,
    append: bool,
    at: int,
)
    requires
        0 <= at < found.len(),
    ensures
        is_known(note_all(lists, found, append).0, note_all(lists, found, append).1, found[at]),
    decreases found.len(),
{
    let before = note_all(lists, found.drop_last(), append);
    let after = note_one(before, found.last(), append);
    if at < found.len() - 1 {
        lemma_note_all_knows_what_was_found(lists, found.drop_last(), append, at);
        lemma_note_one_keeps_known(before, found.last(), append, found[at]);
    } else if !is_known(before.0, before.1, found.last()) {
        assert(after.1[before.1.len() as int] == found.last());
    }
}

/// A transition leads from a possible state to a possible state.
pub proof fn lemma_step_keeps_wf(state: ScanEngineView, event: ScanEvent, abort_requested: bool)
    requires
        state.wf(),
    ensures
        scan_step(state, event, abort_requested).0.wf(),
{
    lemma_sampler_step_keeps_wf(SamplerView::initial(), SamplerEvent::Ready, abort_requested);
    match event {
        ScanEvent::Polled(outcome) => {
            lemma_sampler_step_keeps_wf(
                state.sampler,
                SamplerEvent::Polled(outcome),
                abort_requested,
            );
        },
        ScanEvent::Waited => {
            lemma_sampler_step_keeps_wf(state.sampler, SamplerEvent::Ready, abort_requested);
        },
        ScanEvent::Harvested(Ok(harvest)) => {
            lemma_merge_all_distinct(state.channels, record_views(harvest.services@));
            lemma_note_all_grows(
                (state.entries, state.discovered),
                harvest.transponders@,
                state.options.discover_new_transponders,
            );
        },
        _ => {},
    }
}

} // verus!
