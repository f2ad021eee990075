//! What holds of every run of the engine, whatever the driver reports.
//!
//! A run is a sequence of events, each paired with the abort flag that the
//! driver read before it handed the event over.

use crate::channels::{is_prefix, lemma_merge_all_concat, lemma_merge_all_grows, merge_all};
use crate::engine::{
    holds_no_verdict, is_resource_failure, lemma_note_all_grows, lemma_step_keeps_wf, scan_step,
    ScanAction, ScanEngineView, ScanEvent, ScanPhase,
};
use crate::sampler::MAX_ATTEMPTS;
use crate::service::{record_views, ServiceRecordView};
use vstd::prelude::*;

verus! {

/// The state after the events of `trace`.
pub open spec fn scan_after(state: ScanEngineView, trace: Seq<(ScanEvent, bool)>) -> ScanEngineView
    decreases trace.len(),
{
    if trace.len() == 0 {
        state
    } else {
        scan_step(scan_after(state, trace.drop_last()), trace.last().0, trace.last().1).0
    }
}

/// The action that answers event `at` of `trace`.
pub open spec fn scan_action(
    state: ScanEngineView,
    trace: Seq<(ScanEvent, bool)>,
    at: int,
) -> ScanAction
    recommends
        0 <= at < trace.len(),
{
    scan_step(scan_after(state, trace.take(at)), trace[at].0, trace[at].1).1
}

/// The services that `event` delivers to an engine in `state`: those of a
/// successful table read that the engine was waiting for, and none otherwise.
pub open spec fn harvested_by(state: ScanEngineView, event: ScanEvent) -> Seq<ServiceRecordView> {
    match (state.phase, event) {
        (ScanPhase::LockedHarvesting, ScanEvent::Harvested(Ok(harvest))) => record_views(
            harvest.services@,
        ),
        _ => Seq::empty(),
    }
}

/// The services that the table reads of `trace` delivered, in order.
pub open spec fn services_harvested(
    state: ScanEngineView,
    trace: Seq<(ScanEvent, bool)>,
) -> Seq<ServiceRecordView>
    decreases trace.len(),
{
    if trace.len() == 0 {
        Seq::empty()
    } else {
        services_harvested(state, trace.drop_last()) + harvested_by(
            scan_after(state, trace.drop_last()),
            trace.last().0,
        )
    }
}

/// The events that can fail a run: a frontend that could not be opened, and
/// a frontend that vanished.
pub open spec fn is_fatal(event: ScanEvent) -> bool {
    event is DeviceLost || (event is Opened && event->Opened_0 is Err)
}

/// Whether some event of `trace` can fail a run.
pub open spec fn has_fatal_event(trace: Seq<(ScanEvent, bool)>) -> bool {
    exists|i: int| 0 <= i < trace.len() && is_fatal((#[trigger] trace[i]).0)
}

/// How many of the answers to `trace` ask to close the frontend.
pub open spec fn closes_requested(state: ScanEngineView, trace: Seq<(ScanEvent, bool)>) -> nat
    decreases trace.len(),
{
    if trace.len() == 0 {
        0
    } else {
        let earlier = closes_requested(state, trace.drop_last());
        if scan_action(state, trace, trace.len() - 1) is Close {
            earlier + 1
        } else {
            earlier
        }
    }
}

/// How many of the answers to `trace` ask to tune an entry.
pub open spec fn tunes_requested(state: ScanEngineView, trace: Seq<(ScanEvent, bool)>) -> nat
    decreases trace.len(),
{
    if trace.len() == 0 {
        0
    } else {
        let earlier = tunes_requested(state, trace.drop_last());
        if scan_action(state, trace, trace.len() - 1) is Tune {
            earlier + 1
        } else {
            earlier
        }
    }
}

/// How many of the answers to `trace` ask for a poll.
pub open spec fn polls_requested(state: ScanEngineView, trace: Seq<(ScanEvent, bool)>) -> nat
    decreases trace.len(),
{
    if trace.len() == 0 {
        0
    } else {
        let earlier = polls_requested(state, trace.drop_last());
        if scan_action(state, trace, trace.len() - 1) is Poll {
            earlier + 1
        } else {
            earlier
        }
    }
}

/// How many polls the engine can still ask for before it asks to tune again.
pub open spec fn polls_left(state: ScanEngineView) -> int {
    if state.phase == ScanPhase::Tuning {
        MAX_ATTEMPTS as int
    } else if state.phase == ScanPhase::Sampling {
        MAX_ATTEMPTS - state.sampler.attempts
    } else {
        0
    }
}

/// Every run leads from a possible state to a possible state.
pub proof fn lemma_run_keeps_wf(state: ScanEngineView, trace: Seq<(ScanEvent, bool)>)
    requires
        state.wf(),
    ensures
        scan_after(state, trace).wf(),
    decreases trace.len(),
{
    if trace.len() > 0 {
        lemma_run_keeps_wf(state, trace.drop_last());
        lemma_step_keeps_wf(scan_after(state, trace.drop_last()), trace.last().0, trace.last().1);
    }
}

/// No entry is polled more than [`MAX_ATTEMPTS`] times: in a stretch of a run
/// in which no entry is tuned, the polls asked for stay within what the entry
/// under way has left.
pub proof fn lemma_polls_per_entry(state: ScanEngineView, trace: Seq<(ScanEvent, bool)>)
    requires
        state.wf(),
        tunes_requested(state, trace) == 0,
    ensures
        polls_requested(state, trace) + polls_left(scan_after(state, trace)) <= polls_left(state),
        polls_requested(state, trace) <= MAX_ATTEMPTS,
    decreases trace.len(),
{
    if trace.len() > 0 {
        let front = trace.drop_last();
        lemma_polls_per_entry(state, front);
        lemma_run_keeps_wf(state, front);
        lemma_run_keeps_wf(state, trace);
        assert(trace.take(trace.len() - 1) == front);
    }
}

/// One transition merges what its event delivers and changes the channel
/// list in no other way.
pub proof fn lemma_step_merges_harvest(
    state: ScanEngineView,
    event: ScanEvent,
    abort_requested: bool,
)
    ensures
        scan_step(state, event, abort_requested).0.channels == merge_all(
            state.channels,
            harvested_by(state, event),
        ),
{
}

/// The channel list after a run is the list before it with every harvested
/// service merged in, in the order of delivery, the first record of each key
/// winning. Nothing else gets into the list.
pub proof fn lemma_channels_are_the_merged_harvest(
    state: ScanEngineView,
    trace: Seq<(ScanEvent, bool)>,
)
    ensures
        scan_after(state, trace).channels == merge_all(
            state.channels,
            services_harvested(state, trace),
        ),
    decreases trace.len(),
{
    if trace.len() > 0 {
        let front = trace.drop_last();
        lemma_channels_are_the_merged_harvest(state, front);
        lemma_step_merges_harvest(scan_after(state, front), trace.last().0, trace.last().1);
        lemma_merge_all_concat(
            state.channels,
            services_harvested(state, front),
            harvested_by(scan_after(state, front), trace.last().0),
        );
    }
}

/// A scan never returns more channels than were harvested: the list grows by
/// no more than the number of services that the table reads delivered, and
/// what it held before stays at its front. Entries that failed, or locked and
/// delivered nothing, add nothing.
pub proof fn lemma_no_fabricated_channels(state: ScanEngineView, trace: Seq<(ScanEvent, bool)>)
    ensures
        scan_after(state, trace).channels.len() <= state.channels.len() + services_harvested(
            state,
            trace,
        ).len(),
        is_prefix(state.channels, scan_after(state, trace).channels),
{
    lemma_channels_are_the_merged_harvest(state, trace);
    lemma_merge_all_grows(state.channels, services_harvested(state, trace));
}

/// With the abort flag set, no entry is tuned and no polling attempt starts.
pub proof fn lemma_abort_blocks_new_work(state: ScanEngineView, event: ScanEvent)
    ensures
        !(scan_step(state, event, true).1 is Tune),
        !(scan_step(state, event, true).1 is Poll),
{
}

/// Once an abort is requested and stays requested, the rest of the run tunes
/// no entry and starts no polling attempt, and the channels merged before the
/// request stay in the list.
pub proof fn lemma_abort_is_monotone(
    state: ScanEngineView,
    trace: Seq<(ScanEvent, bool)>,
    since: int,
    at: int,
)
    requires
        0 <= since <= at < trace.len(),
        forall|k: int| since <= k < trace.len() ==> (#[trigger] trace[k]).1,
    ensures
        !(scan_action(state, trace, at) is Tune),
        !(scan_action(state, trace, at) is Poll),
        is_prefix(scan_after(state, trace.take(since)).channels, scan_after(state, trace).channels),
{
    lemma_abort_blocks_new_work(scan_after(state, trace.take(at)), trace[at].0);
    let rest = trace.subrange(since, trace.len() as int);
    lemma_run_splits(state, trace, since);
    lemma_no_fabricated_channels(scan_after(state, trace.take(since)), rest);
}

/// A run is its first part followed by the rest.
pub proof fn lemma_run_splits(state: ScanEngineView, trace: Seq<(ScanEvent, bool)>, at: int)
    requires
        0 <= at <= trace.len(),
    ensures
        scan_after(state, trace) == scan_after(
            scan_after(state, trace.take(at)),
            trace.subrange(at, trace.len() as int),
        ),
    decreases trace.len() - at,
{
    let rest = trace.subrange(at, trace.len() as int);
    if at == trace.len() {
        assert(trace.take(at) == trace);
    } else {
        assert(trace.drop_last().take(at) == trace.take(at));
        assert(rest.drop_last() == trace.drop_last().subrange(at, trace.len() - 1));
        lemma_run_splits(state, trace.drop_last(), at);
    }
}

/// A scan that has begun to end asks nothing more of the frontend: every later
/// event is answered with `Done` or `Rejected`, and neither the channel list
/// nor the failure of the run changes.
pub proof fn lemma_nothing_follows_the_end(
    state: ScanEngineView,
    trace: Seq<(ScanEvent, bool)>,
    at: int,
)
    requires
        !holds_no_verdict(state.phase),
        0 <= at < trace.len(),
    ensures
        scan_action(state, trace, at) is Done || scan_action(state, trace, at) is Rejected,
        !holds_no_verdict(scan_after(state, trace).phase),
        scan_after(state, trace).channels == state.channels,
        scan_after(state, trace).error == state.error,
    decreases trace.len(),
{
    let front = trace.drop_last();
    if at < trace.len() - 1 {
        lemma_nothing_follows_the_end(state, front, at);
        assert(front.take(at) == trace.take(at));
    } else {
        assert(trace.take(at) == front);
        if front.len() > 0 {
            lemma_nothing_follows_the_end(state, front, 0);
        }
    }
}

/// A run fails only for a frontend that could not be opened or that vanished.
/// An entry that does not tune or lock, a table read that fails and an abort
/// fail no run.
pub proof fn lemma_only_the_frontend_fails_a_run(
    state: ScanEngineView,
    trace: Seq<(ScanEvent, bool)>,
)
    requires
        state.error is None,
    ensures
        scan_after(state, trace).error is Some ==> has_fatal_event(trace),
    decreases trace.len(),
{
    if trace.len() > 0 {
        let front = trace.drop_last();
        lemma_only_the_frontend_fails_a_run(state, front);
        if scan_after(state, front).error is Some {
            let i = choose|i: int| 0 <= i < front.len() && is_fatal((#[trigger] front[i]).0);
            assert(is_fatal(trace[i].0));
        } else if scan_after(state, trace).error is Some {
            assert(is_fatal(trace[trace.len() - 1].0));
        }
    }
}

/// With discovery switched off the work list never changes: the scan visits
/// the input entries and no others, whatever the tables report.
pub proof fn lemma_without_discovery_the_list_is_fixed(
    state: ScanEngineView,
    trace: Seq<(ScanEvent, bool)>,
)
    requires
        !state.options.discover_new_transponders,
    ensures
        scan_after(state, trace).entries == state.entries,
        scan_after(state, trace).options == state.options,
    decreases trace.len(),
{
    if trace.len() > 0 {
        let front = trace.drop_last();
        lemma_without_discovery_the_list_is_fixed(state, front);
        let before = scan_after(state, front);
        match trace.last().0 {
            ScanEvent::Harvested(Ok(harvest)) => {
                lemma_note_all_grows(
                    (before.entries, before.discovered),
                    harvest.transponders@,
                    false,
                );
            },
            _ => {},
        }
    }
}

/// Every request to tune names an entry of the work list, with that entry's
/// parameters.
pub proof fn lemma_tune_names_an_entry(
    state: ScanEngineView,
    event: ScanEvent,
    abort_requested: bool,
)
    requires
        state.wf(),
        scan_step(state, event, abort_requested).0.entries.len() <= usize::MAX,
    ensures
        match scan_step(state, event, abort_requested).1 {
            ScanAction::Tune { index, parameters } => {
                let after = scan_step(state, event, abort_requested).0;
                index < after.entries.len() && parameters == after.entries[index as int].parameters
                    && index == after.cursor
            },
            _ => true,
        },
{
    lemma_step_keeps_wf(state, event, abort_requested);
    match event {
        ScanEvent::Harvested(Ok(harvest)) => {
            lemma_note_all_grows(
                (state.entries, state.discovered),
                harvest.transponders@,
                state.options.discover_new_transponders,
            );
        },
        _ => {},
    }
}

/// The frontend is released once on every path: a run asks to close exactly
/// once if it starts before the end has begun and gets as far as closing, and
/// never otherwise. The one end without a close is that of a frontend that
/// could not be opened.
pub proof fn lemma_frontend_is_closed_once(state: ScanEngineView, trace: Seq<(ScanEvent, bool)>)
    requires
        state.wf(),
    ensures
        closes_requested(state, trace) == if holds_no_verdict(state.phase) && !holds_no_verdict(
            scan_after(state, trace).phase,
        ) && !is_resource_failure(scan_after(state, trace).error) {
            1nat
        } else {
            0nat
        },
        !holds_no_verdict(state.phase) ==> !holds_no_verdict(scan_after(state, trace).phase),
    decreases trace.len(),
{
    if trace.len() > 0 {
        let front = trace.drop_last();
        lemma_frontend_is_closed_once(state, front);
        lemma_run_keeps_wf(state, front);
        assert(trace.take(trace.len() - 1) == front);
    }
}

} // verus!
