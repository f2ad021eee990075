//! Polling a tuned frontend until it locks, fails or is aborted.
//!
//! The sampler decides; it does not touch the device. A driver reports that
//! it is ready for an attempt, performs the poll that the sampler asks for,
//! reports what it saw, and sleeps when told to wait.

use crate::status::{FailureReason, PollOutcome, ScanVerdict, StatusSnapshot};
use vstd::prelude::*;

verus! {

/// The most polling attempts made for one entry.
pub const MAX_ATTEMPTS: u32 = 20;

/// The pause between two polling attempts, in milliseconds.
pub const POLL_INTERVAL_MS: u64 = 100;

/// What the sampler is waiting for.
#[derive(Clone, Copy, Debug, PartialEq, Eq, Structural)]
pub enum SamplerPhase {
    /// The driver has yet to say that it is ready for the next attempt.
    AwaitingReady,
    /// A poll was requested and its outcome is outstanding.
    AwaitingPoll,
    /// The verdict was given.
    Done,
}

/// What a driver tells the sampler.
#[derive(Debug, PartialEq, Eq)]
pub enum SamplerEvent {
    /// The driver is ready for an attempt: at the start, or after a wait.
    Ready,
    /// The requested poll was made and gave this outcome.
    Polled(PollOutcome),
}

/// What the sampler tells a driver to do next.
#[derive(Debug, PartialEq, Eq)]
pub enum SamplerAction {
    /// Refresh the statistics and read the status, then report the outcome.
    Poll,
    /// Sleep for `millis` milliseconds, then report ready.
    Wait { millis: u64 },
    /// Polling is over with this verdict.
    Finished(ScanVerdict),
    /// The event does not answer what the sampler is waiting for. Nothing
    /// changed.
    Rejected,
}

/// The mathematical state of a [`StatusSampler`].
pub ghost struct SamplerView {
    /// The polls requested so far.
    pub attempts: nat,
    pub phase: SamplerPhase,
}

impl SamplerView {
    /// The states that a sampler can be in.
    pub open spec fn wf(self) -> bool {
        &&& self.attempts <= MAX_ATTEMPTS
        &&& self.phase == SamplerPhase::AwaitingReady ==> self.attempts < MAX_ATTEMPTS
        &&& self.phase == SamplerPhase::AwaitingPoll ==> self.attempts >= 1
    }

    /// The state before the first attempt.
    pub open spec fn initial() -> SamplerView {
        SamplerView { attempts: 0, phase: SamplerPhase::AwaitingReady }
    }
}

/// One transition of the sampler: the state after `event` and the action asked
/// of the driver. `abort_requested` is the abort flag as the driver read it
/// just before the call. It is looked at only when an attempt is about to
/// start.
pub open spec fn sampler_step(state: SamplerView, event: SamplerEvent, abort_requested: bool) -> (
    SamplerView,
    SamplerAction,
) {
    match (state.phase, event) {
        (SamplerPhase::AwaitingReady, SamplerEvent::Ready) => {
            if abort_requested {
                (
                    SamplerView { phase: SamplerPhase::Done, ..state },
                    SamplerAction::Finished(ScanVerdict::Aborted),
                )
            } else {
                (
                    SamplerView { attempts: state.attempts + 1, phase: SamplerPhase::AwaitingPoll },
                    SamplerAction::Poll,
                )
            }
        },
        (SamplerPhase::AwaitingPoll, SamplerEvent::Polled(outcome)) => {
            if outcome.spec_locked() {
                (
                    SamplerView { phase: SamplerPhase::Done, ..state },
                    SamplerAction::Finished(
                        ScanVerdict::Locked(
                            StatusSnapshot::spec_decode(outcome, state.attempts as u32),
                        ),
                    ),
                )
            } else if state.attempts >= MAX_ATTEMPTS {
                (
                    SamplerView { phase: SamplerPhase::Done, ..state },
                    SamplerAction::Finished(ScanVerdict::Failed(FailureReason::Timeout)),
                )
            } else {
                (
                    SamplerView { phase: SamplerPhase::AwaitingReady, ..state },
                    SamplerAction::Wait { millis: POLL_INTERVAL_MS },
                )
            }
        },
        _ => (state, SamplerAction::Rejected),
    }
}

/// Decides, attempt by attempt, how one tuned entry is polled.
#[derive(Clone, Copy, Debug, PartialEq, Eq)]
pub struct StatusSampler {
    attempts: u32,
    phase: SamplerPhase,
}

impl View for StatusSampler {
    type V = SamplerView;

    closed spec fn view(&self) -> SamplerView {
        SamplerView { attempts: self.attempts as nat, phase: self.phase }
    }
}

impl StatusSampler {
    #[verifier::type_invariant]
    spec fn well_formed(self) -> bool {
        self@.wf()
    }

    /// A sampler for an entry that was just tuned.
    pub fn new() -> (sampler: StatusSampler)
        ensures
            sampler@ == SamplerView::initial(),
    {
        StatusSampler { attempts: 0, phase: SamplerPhase::AwaitingReady }
    }

    /// The polls requested so far; never more than [`MAX_ATTEMPTS`].
    pub fn attempts(&self) -> (made: u32)
        ensures
            made == self@.attempts,
            made <= MAX_ATTEMPTS,
            self@.wf(),
    {
        proof {
            use_type_invariant(self);
        }
        self.attempts
    }

    /// What the sampler is waiting for.
    pub fn phase(&self) -> (phase: SamplerPhase)
        ensures
            phase == self@.phase,
    {
        self.phase
    }

    /// Takes one event and says what to do next, as [`sampler_step`] defines.
    pub fn step(&mut self, event: SamplerEvent, abort_requested: bool) -> (action: SamplerAction)
        ensures
            (final(self)@, action) == sampler_step(old(self)@, event, abort_requested),
            final(self)@.wf(),
    {
        proof {
            use_type_invariant(&*self);
        }
        let attempts = self.attempts;
        match (self.phase, event) {
            (SamplerPhase::AwaitingReady, SamplerEvent::Ready) => {
                if abort_requested {
                    *self = StatusSampler { attempts, phase: SamplerPhase::Done };
                    SamplerAction::Finished(ScanVerdict::Aborted)
                } else {
                    *self = StatusSampler {
                        attempts: attempts + 1,
                        phase: SamplerPhase::AwaitingPoll,
                    };
                    SamplerAction::Poll
                }
            },
            (SamplerPhase::AwaitingPoll, SamplerEvent::Polled(outcome)) => {
                if outcome.locked() {
                    *self = StatusSampler { attempts, phase: SamplerPhase::Done };
                    SamplerAction::Finished(
                        ScanVerdict::Locked(StatusSnapshot::decode(outcome, attempts)),
                    )
                } else if attempts >= MAX_ATTEMPTS {
                    *self = StatusSampler { attempts, phase: SamplerPhase::Done };
                    SamplerAction::Finished(ScanVerdict::Failed(FailureReason::Timeout))
                } else {
                    *self = StatusSampler { attempts, phase: SamplerPhase::AwaitingReady };
                    SamplerAction::Wait { millis: POLL_INTERVAL_MS }
                }
            },
            _ => SamplerAction::Rejected,
        }
    }
}

/// A transition leads from a possible state to a possible state.
pub proof fn lemma_sampler_step_keeps_wf(
    state: SamplerView,
    event: SamplerEvent,
    abort_requested: bool,
)
    requires
        state.wf(),
    ensures
        sampler_step(state, event, abort_requested).0.wf(),
{
}

/// The state after the events of `trace`, each paired with the abort flag
/// that was read before it.
pub open spec fn sampler_after(state: SamplerView, trace: Seq<(SamplerEvent, bool)>) -> SamplerView
    decreases trace.len(),
{
    if trace.len() == 0 {
        state
    } else {
        sampler_step(sampler_after(state, trace.drop_last()), trace.last().0, trace.last().1).0
    }
}

/// The action that answers event `at` of `trace`.
pub open spec fn sampler_action(
    state: SamplerView,
    trace: Seq<(SamplerEvent, bool)>,
    at: int,
) -> SamplerAction
    recommends
        0 <= at < trace.len(),
{
    sampler_step(sampler_after(state, trace.take(at)), trace[at].0, trace[at].1).1
}

/// How many of the answers to `trace` ask for a poll.
pub open spec fn polls_requested(state: SamplerView, trace: Seq<(SamplerEvent, bool)>) -> nat
    decreases trace.len(),
{
    if trace.len() == 0 {
        0
    } else {
        let earlier = polls_requested(state, trace.drop_last());
        if sampler_action(state, trace, trace.len() - 1) is Poll {
            earlier + 1
        } else {
            earlier
        }
    }
}

/// Whatever a driver reports, and in whatever order, the sampler asks for no
/// more than [`MAX_ATTEMPTS`] polls: each request is counted, and the count
/// never passes the limit.
pub proof fn lemma_poll_budget(state: SamplerView, trace: Seq<(SamplerEvent, bool)>)
    requires
        state.wf(),
    ensures
        sampler_after(state, trace).wf(),
        sampler_after(state, trace).attempts == state.attempts + polls_requested(state, trace),
        state.attempts + polls_requested(state, trace) <= MAX_ATTEMPTS,
    decreases trace.len(),
{
    if trace.len() > 0 {
        lemma_poll_budget(state, trace.drop_last());
        assert(trace.take(trace.len() - 1) == trace.drop_last());
    }
}

/// Once the verdict is given the sampler asks for nothing more: every later
/// event is rejected and the state stays as it is.
pub proof fn lemma_done_is_final(
    state: SamplerView,
    trace: Seq<(SamplerEvent, bool)>,
    done_at: int,
    later: int,
)
    requires
        0 <= done_at <= later < trace.len(),
        sampler_after(state, trace.take(done_at)).phase == SamplerPhase::Done,
    ensures
        sampler_action(state, trace, later) == SamplerAction::Rejected,
        sampler_after(state, trace.take(later + 1)) == sampler_after(state, trace.take(done_at)),
    decreases later - done_at,
{
    assert(trace.take(later + 1).drop_last() == trace.take(later));
    if done_at < later {
        lemma_done_is_final(state, trace, done_at, later - 1);
    }
}

/// Polling stops at the first lock: the event that reports a lock is answered
/// with the verdict `Locked`, carrying the snapshot of that attempt, and every
/// event after it is rejected.
pub proof fn lemma_first_lock_stops_polling(
    state: SamplerView,
    trace: Seq<(SamplerEvent, bool)>,
    lock_at: int,
    later: int,
)
    requires
        0 <= lock_at < later < trace.len(),
        sampler_after(state, trace.take(lock_at)).phase == SamplerPhase::AwaitingPoll,
        trace[lock_at].0 is Polled,
        trace[lock_at].0->Polled_0.spec_locked(),
    ensures
        sampler_action(state, trace, lock_at) == SamplerAction::Finished(
            ScanVerdict::Locked(
                StatusSnapshot::spec_decode(
                    trace[lock_at].0->Polled_0,
                    sampler_after(state, trace.take(lock_at)).attempts as u32,
                ),
            ),
        ),
        sampler_action(state, trace, later) == SamplerAction::Rejected,
{
    assert(trace.take(lock_at + 1).drop_last() == trace.take(lock_at));
    lemma_done_is_final(state, trace, lock_at + 1, later);
}

/// An abort seen at the start of an attempt ends polling at once: the answer
/// is the verdict `Aborted`, no poll is asked for, and every later event is
/// rejected.
pub proof fn lemma_abort_stops_polling(
    state: SamplerView,
    trace: Seq<(SamplerEvent, bool)>,
    abort_at: int,
    later: int,
)
    requires
        0 <= abort_at < later < trace.len(),
        sampler_after(state, trace.take(abort_at)).phase == SamplerPhase::AwaitingReady,
        trace[abort_at] == (SamplerEvent::Ready, true),
    ensures
        sampler_action(state, trace, abort_at) == SamplerAction::Finished(ScanVerdict::Aborted),
        sampler_action(state, trace, later) == SamplerAction::Rejected,
{
    assert(trace.take(abort_at + 1).drop_last() == trace.take(abort_at));
    lemma_done_is_final(state, trace, abort_at + 1, later);
}

} // verus!
