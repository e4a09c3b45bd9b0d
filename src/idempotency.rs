//! Idempotency gate: the state a logical send request has in the shared store,
//! and the two atomic transitions the worker performs on it.
use vstd::prelude::*;

verus! {

/// What the shared store holds for one idempotency key.
#[derive(Clone, Copy, Debug, PartialEq, Eq, Structural)]
pub enum IdempotencyState {
    Unclaimed,
    Processing,
    Sent,
}

/// Reply of an atomic check-and-claim on one key.
#[derive(Clone, Copy, Debug, PartialEq, Eq, Structural)]
pub enum ClaimResult {
    AlreadySent,
    AlreadyProcessing,
    Claimed,
}

/// The reply of check-and-claim on a key currently in state `s`.
pub open spec fn claim_reply(s: IdempotencyState) -> ClaimResult {
    match s {
        IdempotencyState::Sent => ClaimResult::AlreadySent,
        IdempotencyState::Processing => ClaimResult::AlreadyProcessing,
        IdempotencyState::Unclaimed => ClaimResult::Claimed,
    }
}

/// The state of a key after check-and-claim on state `s`.
pub open spec fn state_after_claim(s: IdempotencyState) -> IdempotencyState {
    match s {
        IdempotencyState::Unclaimed => IdempotencyState::Processing,
        _ => s,
    }
}

/// The state of a key after commit-sent on state `s`: only a claimed key
/// moves to `Sent`.
pub open spec fn state_after_commit(s: IdempotencyState) -> IdempotencyState {
    match s {
        IdempotencyState::Processing => IdempotencyState::Sent,
        _ => s,
    }
}

/// Atomic check-and-claim: reports a key already sent or in flight, and
/// otherwise claims it by moving it to `Processing`.
pub fn check_and_claim(current: IdempotencyState) -> (r: (ClaimResult, IdempotencyState))
    ensures
        r.0 == claim_reply(current),
        r.1 == state_after_claim(current),
{
    match current {
        IdempotencyState::Sent => (ClaimResult::AlreadySent, IdempotencyState::Sent),
        IdempotencyState::Processing => (ClaimResult::AlreadyProcessing, IdempotencyState::Processing),
        IdempotencyState::Unclaimed => (ClaimResult::Claimed, IdempotencyState::Processing),
    }
}

/// Atomic commit-sent: `Processing` becomes `Sent`; any other state is left
/// alone and the commit reports that it did not apply.
pub fn commit_sent(current: IdempotencyState) -> (r: (bool, IdempotencyState))
    ensures
        r.0 == (current == IdempotencyState::Processing),
        r.1 == state_after_commit(current),
{
    match current {
        IdempotencyState::Processing => (true, IdempotencyState::Sent),
        _ => (false, current),
    }
}

/// The text a state is kept under in the shared store; `Unclaimed` is an
/// absent key.
pub open spec fn store_text(s: IdempotencyState) -> Option<Seq<char>> {
    match s {
        IdempotencyState::Unclaimed => None,
        IdempotencyState::Processing => Some("processing"@),
        IdempotencyState::Sent => Some("sent"@),
    }
}

impl IdempotencyState {
    /// The value to store for this state, `None` for an absent key.
    pub fn to_store_value(&self) -> (r: Option<String>)
        ensures
            r.is_none() == store_text(*self).is_none(),
            r.is_some() ==> r.unwrap()@ == store_text(*self).unwrap(),
    {
        match self {
            IdempotencyState::Unclaimed => None,
            IdempotencyState::Processing => Some("processing".to_owned()),
            IdempotencyState::Sent => Some("sent".to_owned()),
        }
    }

    /// Reads the state back from what the store holds for a key; `None` when
    /// the stored text is none of the known values.
    pub fn from_store_value(v: &Option<String>) -> (r: Option<IdempotencyState>)
        ensures
            r.is_some() <==> (v.is_none() || v.unwrap()@ == "processing"@ || v.unwrap()@ == "sent"@),
            r.is_some() ==> store_text(r.unwrap()) == (match v {
                Some(t) => Some(t@),
                None => None::<Seq<char>>,
            }),
    {
        proof {
            reveal_strlit("processing");
            reveal_strlit("sent");
        }
        match v {
            None => Some(IdempotencyState::Unclaimed),
            Some(t) => {
                let processing = "processing".to_owned();
                let sent = "sent".to_owned();
                if *t == processing {
                    Some(IdempotencyState::Processing)
                } else if *t == sent {
                    Some(IdempotencyState::Sent)
                } else {
                    None
                }
            },
        }
    }
}

/// One atomic operation on a key of the store.
pub enum StoreOp {
    Claim,
    Commit,
}

/// The state of a key after the operations `ops`, applied in order from `s`.
pub open spec fn state_after_ops(s: IdempotencyState, ops: Seq<StoreOp>) -> IdempotencyState
    decreases ops.len(),
{
    if ops.len() == 0 {
        s
    } else {
        let next = match ops[0] {
            StoreOp::Claim => state_after_claim(s),
            StoreOp::Commit => state_after_commit(s),
        };
        state_after_ops(next, ops.subrange(1, ops.len() as int))
    }
}

/// How many of the claims among `ops`, applied in order from `s`, reply
/// `Claimed`.
pub open spec fn claims_granted(s: IdempotencyState, ops: Seq<StoreOp>) -> nat
    decreases ops.len(),
{
    if ops.len() == 0 {
        0
    } else {
        let rest = ops.subrange(1, ops.len() as int);
        match ops[0] {
            StoreOp::Claim => (if claim_reply(s) == ClaimResult::Claimed { 1nat } else { 0nat })
                + claims_granted(state_after_claim(s), rest),
            StoreOp::Commit => claims_granted(state_after_commit(s), rest),
        }
    }
}

/// However the atomic claims and commits of any number of workers on one key
/// interleave, at most one claim is granted, and none once the key has left
/// `Unclaimed`.
pub proof fn lemma_claim_granted_at_most_once(s: IdempotencyState, ops: Seq<StoreOp>)
    ensures
        claims_granted(s, ops) <= 1,
        s != IdempotencyState::Unclaimed ==> claims_granted(s, ops) == 0,
    decreases ops.len(),
{
    if ops.len() > 0 {
        let rest = ops.subrange(1, ops.len() as int);
        match ops[0] {
            StoreOp::Claim => lemma_claim_granted_at_most_once(state_after_claim(s), rest),
            StoreOp::Commit => lemma_claim_granted_at_most_once(state_after_commit(s), rest),
        }
    }
}

} // verus!
