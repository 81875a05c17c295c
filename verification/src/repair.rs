//! The per-object repair state machine and the aggregation of its
//! outcomes.
//!
//! The orchestrator drives one object through: check the hostname's
//! health; if unresolved, delete the object and wait for it to be gone,
//! recreate it from a sanitized copy, then poll until the hostname
//! resolves again or the budget runs out. A caller runs the loop: it
//! performs each commanded action against the resolver and the store,
//! and hands the observed result back as the next event.

use vstd::prelude::*;

verus! {

use crate::dns::PollResult;
use crate::dns::Resolution;

/// How the deletion waiter ended.
pub enum DeleteEnd {
    /// The object is observably gone from the store.
    Gone,
    /// The store reported the delete as failed; the object may be in an
    /// inconsistent state.
    Failed { reason: String },
    /// The wait for the object to disappear exceeded its bound.
    TimedOut,
}

/// How the creation request ended.
pub enum CreateEnd {
    /// The store accepted the sanitized copy.
    Created,
    /// The store refused it; the object is now absent and must be
    /// recreated manually.
    Failed { cause: String },
}

/// One observed result, handed to the state machine as its next event.
pub enum RepairEvent {
    /// The initial health check classified the hostname.
    Checked { resolution: Resolution },
    /// The deletion waiter ended.
    Deleted { deletion: DeleteEnd },
    /// The creation request ended.
    Created { creation: CreateEnd },
    /// The convergence poll ended after `elapsed` milliseconds.
    Polled { result: PollResult, elapsed: u64 },
}

/// The terminal verdict for one object.
pub enum RepairOutcome {
    /// The hostname resolves; nothing was mutated.
    Healthy { addresses: String },
    /// The object was recreated and the hostname resolves again after
    /// `elapsed` milliseconds of polling.
    Restored { addresses: String, elapsed: u64 },
    /// The initial health check failed operationally; no repair was
    /// attempted.
    CheckFailed { cause: String },
    /// The delete failed; manual intervention is required.
    DeleteFailed { reason: String },
    /// The wait for deletion exceeded its bound; manual intervention is
    /// required.
    DeleteTimedOut,
    /// The creation failed; the object is permanently deleted and must
    /// be recreated manually.
    CreateFailed { cause: String },
    /// The recreated object never resolved within the budget.
    ConvergenceTimedOut,
    /// A poll probe failed operationally after recreation.
    PollFailed { cause: String },
}

/// Where the state machine stands.
pub enum RepairPhase {
    /// Waiting for the initial health classification.
    Checking,
    /// Waiting for the deletion waiter.
    Deleting,
    /// Waiting for the creation request.
    Recreating,
    /// Waiting for the convergence poll.
    Converging,
    /// Terminal.
    Done { outcome: RepairOutcome },
}

/// What the caller must do next.
pub enum RepairAction {
    /// Resolve the hostname once and classify the outcome.
    ProbeHostname,
    /// Issue the foreground delete and wait for the object to be gone.
    DeleteService,
    /// Submit the sanitized copy as a creation request.
    CreateService,
    /// Run the bounded convergence poll against the hostname.
    PollHostname,
    /// Nothing: the phase is terminal.
    Stop,
}

/// The transition relation of the repair state machine. A healthy check
/// stops without mutating; an operational check failure aborts without
/// destructive action; only an affirmative "unresolved" leads to the
/// delete. Each later failure is terminal with its own outcome. An
/// event that does not belong to the phase changes nothing.
pub open spec fn repair_transition(phase: RepairPhase, event: RepairEvent) -> (RepairPhase,
    RepairAction) {
    match (phase, event) {
        (RepairPhase::Checking, RepairEvent::Checked { resolution }) => match resolution {
            Resolution::Resolved { addresses } => (
                RepairPhase::Done { outcome: RepairOutcome::Healthy { addresses } },
                RepairAction::Stop,
            ),
            Resolution::Unresolved => (RepairPhase::Deleting, RepairAction::DeleteService),
            Resolution::Error { cause } => (
                RepairPhase::Done { outcome: RepairOutcome::CheckFailed { cause } },
                RepairAction::Stop,
            ),
        },
        (RepairPhase::Deleting, RepairEvent::Deleted { deletion }) => match deletion {
            DeleteEnd::Gone => (RepairPhase::Recreating, RepairAction::CreateService),
            DeleteEnd::Failed { reason } => (
                RepairPhase::Done { outcome: RepairOutcome::DeleteFailed { reason } },
                RepairAction::Stop,
            ),
            DeleteEnd::TimedOut => (
                RepairPhase::Done { outcome: RepairOutcome::DeleteTimedOut },
                RepairAction::Stop,
            ),
        },
        (RepairPhase::Recreating, RepairEvent::Created { creation }) => match creation {
            CreateEnd::Created => (RepairPhase::Converging, RepairAction::PollHostname),
            CreateEnd::Failed { cause } => (
                RepairPhase::Done { outcome: RepairOutcome::CreateFailed { cause } },
                RepairAction::Stop,
            ),
        },
        (RepairPhase::Converging, RepairEvent::Polled { result, elapsed }) => match result {
            PollResult::Found { addresses } => (
                RepairPhase::Done { outcome: RepairOutcome::Restored { addresses, elapsed } },
                RepairAction::Stop,
            ),
            PollResult::NoResult => (
                RepairPhase::Done { outcome: RepairOutcome::ConvergenceTimedOut },
                RepairAction::Stop,
            ),
            PollResult::Failed { cause } => (
                RepairPhase::Done { outcome: RepairOutcome::PollFailed { cause } },
                RepairAction::Stop,
            ),
        },
        (p, _) => (p, RepairAction::Stop),
    }
}

/// The starting point of every repair: check the hostname first.
pub fn repair_start() -> (r: (RepairPhase, RepairAction))
    ensures
        r.0 is Checking,
        r.1 is ProbeHostname,
{
    (RepairPhase::Checking, RepairAction::ProbeHostname)
}

/// Advance the state machine by one observed event.
pub fn repair_step(phase: RepairPhase, event: RepairEvent) -> (r: (RepairPhase, RepairAction))
    ensures
        r == repair_transition(phase, event),
{
    match (phase, event) {
        (RepairPhase::Checking, RepairEvent::Checked { resolution }) => match resolution {
            Resolution::Resolved { addresses } => (
                RepairPhase::Done { outcome: RepairOutcome::Healthy { addresses } },
                RepairAction::Stop,
            ),
            Resolution::Unresolved => (RepairPhase::Deleting, RepairAction::DeleteService),
            Resolution::Error { cause } => (
                RepairPhase::Done { outcome: RepairOutcome::CheckFailed { cause } },
                RepairAction::Stop,
            ),
        },
        (RepairPhase::Deleting, RepairEvent::Deleted { deletion }) => match deletion {
            DeleteEnd::Gone => (RepairPhase::Recreating, RepairAction::CreateService),
            DeleteEnd::Failed { reason } => (
                RepairPhase::Done { outcome: RepairOutcome::DeleteFailed { reason } },
                RepairAction::Stop,
            ),
            DeleteEnd::TimedOut => (
                RepairPhase::Done { outcome: RepairOutcome::DeleteTimedOut },
                RepairAction::Stop,
            ),
        },
        (RepairPhase::Recreating, RepairEvent::Created { creation }) => match creation {
            CreateEnd::Created => (RepairPhase::Converging, RepairAction::PollHostname),
            CreateEnd::Failed { cause } => (
                RepairPhase::Done { outcome: RepairOutcome::CreateFailed { cause } },
                RepairAction::Stop,
            ),
        },
        (RepairPhase::Converging, RepairEvent::Polled { result, elapsed }) => match result {
            PollResult::Found { addresses } => (
                RepairPhase::Done { outcome: RepairOutcome::Restored { addresses, elapsed } },
                RepairAction::Stop,
            ),
            PollResult::NoResult => (
                RepairPhase::Done { outcome: RepairOutcome::ConvergenceTimedOut },
                RepairAction::Stop,
            ),
            PollResult::Failed { cause } => (
                RepairPhase::Done { outcome: RepairOutcome::PollFailed { cause } },
                RepairAction::Stop,
            ),
        },
        (p, _) => (p, RepairAction::Stop),
    }
}

/// An unclassified resolver failure never triggers destructive action:
/// the only transition that ever commands a delete is an affirmative
/// "unresolved" classification at the initial check.
pub proof fn lemma_delete_only_after_unresolved(phase: RepairPhase, event: RepairEvent)
    ensures
        repair_transition(phase, event).1 is DeleteService ==> phase is Checking && (event
            matches RepairEvent::Checked { resolution } && resolution is Unresolved),
{
}

/// An operational failure of the initial check aborts the object's
/// reconciliation with the failure surfaced, repair untried.
pub proof fn lemma_check_error_aborts(cause: String)
    ensures
        repair_transition(
            RepairPhase::Checking,
            RepairEvent::Checked { resolution: Resolution::Error { cause } },
        ) == (
            RepairPhase::Done { outcome: RepairOutcome::CheckFailed { cause } },
            RepairAction::Stop,
        ),
{
}

/// A terminal phase never commands further work, and nothing leaves it.
pub proof fn lemma_done_is_terminal(outcome: RepairOutcome, event: RepairEvent)
    ensures
        repair_transition(RepairPhase::Done { outcome }, event).0 == (RepairPhase::Done {
            outcome,
        }),
        repair_transition(RepairPhase::Done { outcome }, event).1 is Stop,
{
}

/// Whether an outcome counts as success for the run as a whole.
pub open spec fn outcome_ok(o: RepairOutcome) -> bool {
    o matches RepairOutcome::Healthy { .. } || o matches RepairOutcome::Restored { .. }
}

/// Whether every object of the pass ended well; the process reports
/// failure (a non-zero exit) as soon as any one did not.
pub fn all_succeeded(outcomes: &Vec<RepairOutcome>) -> (ok: bool)
    ensures
        ok == forall|i: int| 0 <= i < outcomes@.len() ==> outcome_ok(#[trigger] outcomes@[i]),
{
    let mut j: usize = 0;
    while j < outcomes.len()
        invariant
            j <= outcomes@.len(),
            forall|i: int| 0 <= i < j ==> outcome_ok(#[trigger] outcomes@[i]),
        decreases outcomes@.len() - j,
    {
        let good = match &outcomes[j] {
            RepairOutcome::Healthy { .. } => true,
            RepairOutcome::Restored { .. } => true,
            _ => false,
        };
        if !good {
            return false;
        }
        j += 1;
    }
    true
}

} // verus!
