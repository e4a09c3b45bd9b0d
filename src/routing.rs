//! How the result of handling one delivery is reported back to the broker.
use vstd::prelude::*;
use crate::pipeline::{OutcomeModel, ProcessingOutcome};

verus! {

/// What became of one delivery.
#[derive(Clone, Debug, PartialEq, Eq)]
pub enum DispatchResult {
    /// The payload is not a notification message.
    ParseFailed,
    /// The pipeline ran, or could not start because the store was
    /// unreachable. A transient infrastructure failure only ever comes before
    /// the message's key was claimed, so a redelivery can still process it.
    Outcome(ProcessingOutcome),
}

/// The one broker call that ends a delivery.
#[derive(Clone, Copy, Debug, PartialEq, Eq, Structural)]
pub enum BrokerAction {
    Acknowledge,
    Reject { requeue: bool },
}

/// The broker call for a delivery, and the reason to publish it to the
/// dead-letter destination with, if it goes there.
#[derive(Clone, Debug, PartialEq, Eq)]
pub struct Finalization {
    pub action: BrokerAction,
    pub dead_letter_reason: Option<String>,
}

/// The broker call that ends a delivery with result `r`: processed or
/// skipped deliveries are acknowledged, those that met a transient failure
/// are put back for a later attempt, and the rest are dropped.
pub open spec fn broker_action(r: DispatchResult) -> BrokerAction {
    match r {
        DispatchResult::ParseFailed => BrokerAction::Reject { requeue: false },
        DispatchResult::Outcome(o) => match o {
            ProcessingOutcome::Success => BrokerAction::Acknowledge,
            ProcessingOutcome::SkippedDuplicate => BrokerAction::Acknowledge,
            ProcessingOutcome::TransientInfraFailure(_) => BrokerAction::Reject { requeue: true },
            ProcessingOutcome::PermanentFailure(_) => BrokerAction::Reject { requeue: false },
        },
    }
}

/// The reason a delivery with result `r` is dead-lettered with: only a
/// permanent failure is.
pub open spec fn dead_letter_reason(r: DispatchResult) -> Option<Seq<char>> {
    match r {
        DispatchResult::Outcome(o) => match o@ {
            OutcomeModel::PermanentFailure(e) => Some(e),
            _ => None,
        },
        _ => None,
    }
}

/// Decides how a delivery ends.
pub fn finalize(r: DispatchResult) -> (f: Finalization)
    ensures
        f.action == broker_action(r),
        f.dead_letter_reason.is_some() == dead_letter_reason(r).is_some(),
        f.dead_letter_reason.is_some() ==> f.dead_letter_reason.unwrap()@ == dead_letter_reason(
            r,
        ).unwrap(),
{
    match r {
        DispatchResult::ParseFailed => Finalization {
            action: BrokerAction::Reject { requeue: false },
            dead_letter_reason: None,
        },
        DispatchResult::Outcome(o) => match o {
            ProcessingOutcome::Success => Finalization {
                action: BrokerAction::Acknowledge,
                dead_letter_reason: None,
            },
            ProcessingOutcome::SkippedDuplicate => Finalization {
                action: BrokerAction::Acknowledge,
                dead_letter_reason: None,
            },
            ProcessingOutcome::TransientInfraFailure(_) => Finalization {
                action: BrokerAction::Reject { requeue: true },
                dead_letter_reason: None,
            },
            ProcessingOutcome::PermanentFailure(e) => Finalization {
                action: BrokerAction::Reject { requeue: false },
                dead_letter_reason: Some(e),
            },
        },
    }
}

/// Every delivery ends with exactly one of acknowledge, reject with requeue
/// and reject without, and is dead-lettered only after a permanent failure,
/// in which case it is rejected without requeue.
pub proof fn lemma_one_terminal_action(r: DispatchResult)
    ensures
        (broker_action(r) == BrokerAction::Acknowledge) as int
            + (broker_action(r) == (BrokerAction::Reject { requeue: true })) as int
            + (broker_action(r) == (BrokerAction::Reject { requeue: false })) as int == 1,
        dead_letter_reason(r).is_some() <==> (r is Outcome && (r->Outcome_0 is PermanentFailure)),
        dead_letter_reason(r).is_some() ==> (broker_action(r) == (BrokerAction::Reject { requeue: false })),
{
}

} // verus!
