//! Per-message pipeline: claim the idempotency key, render the template,
//! deliver the push, commit the key. The pipeline decides; its caller makes
//! each call it asks for and hands back the result.
use vstd::prelude::*;
use crate::breaker::Admission;
use crate::idempotency::{
    ClaimResult, IdempotencyState, claim_reply, state_after_claim, state_after_commit,
};

verus! {

/// Result of one pipeline run.
#[derive(Clone, Debug, PartialEq, Eq)]
pub enum ProcessingOutcome {
    Success,
    SkippedDuplicate,
    TransientInfraFailure(String),
    PermanentFailure(String),
}

/// A downstream service reached through a circuit breaker.
#[derive(Clone, Copy, Debug, PartialEq, Eq, Structural)]
pub enum Dependency {
    TemplateService,
    PushGateway,
}

/// Result of a call to a dependency through its circuit breaker.
#[derive(Clone, Debug, PartialEq, Eq)]
pub enum CallResult {
    Completed,
    Failed(String),
    /// The breaker was open and the dependency was not invoked.
    ShortCircuited,
    /// The breaker's shared record could not be read or written.
    BreakerStoreUnavailable(String),
}

/// The next call the pipeline asks its caller to make.
#[derive(Clone, Copy, Debug, PartialEq, Eq, Structural)]
pub enum Action {
    RenderTemplate,
    DeliverPush,
    CommitSent,
}

/// What the pipeline does after a result: ask for another call, or end.
#[derive(Clone, Debug, PartialEq, Eq)]
pub enum Step {
    Next(Action),
    Done(ProcessingOutcome),
}

/// Which result the pipeline waits for.
#[derive(Clone, Copy, Debug, PartialEq, Eq, Structural)]
pub enum Stage {
    Claiming,
    Rendering,
    Delivering,
    Committing,
    Finished,
}

/// Abstract value of a `ProcessingOutcome`.
pub ghost enum OutcomeModel {
    Success,
    SkippedDuplicate,
    TransientInfraFailure(Seq<char>),
    PermanentFailure(Seq<char>),
}

impl View for ProcessingOutcome {
    type V = OutcomeModel;

    open spec fn view(&self) -> OutcomeModel {
        match self {
            ProcessingOutcome::Success => OutcomeModel::Success,
            ProcessingOutcome::SkippedDuplicate => OutcomeModel::SkippedDuplicate,
            ProcessingOutcome::TransientInfraFailure(e) => OutcomeModel::TransientInfraFailure(e@),
            ProcessingOutcome::PermanentFailure(e) => OutcomeModel::PermanentFailure(e@),
        }
    }
}

/// Abstract value of a `CallResult`.
pub ghost enum CallModel {
    Completed,
    Failed(Seq<char>),
    ShortCircuited,
    BreakerStoreUnavailable(Seq<char>),
}

impl View for CallResult {
    type V = CallModel;

    open spec fn view(&self) -> CallModel {
        match self {
            CallResult::Completed => CallModel::Completed,
            CallResult::Failed(e) => CallModel::Failed(e@),
            CallResult::ShortCircuited => CallModel::ShortCircuited,
            CallResult::BreakerStoreUnavailable(e) => CallModel::BreakerStoreUnavailable(e@),
        }
    }
}

/// Abstract value of a `Step`.
pub ghost enum StepModel {
    Next(Action),
    Done(OutcomeModel),
}

impl View for Step {
    type V = StepModel;

    open spec fn view(&self) -> StepModel {
        match self {
            Step::Next(a) => StepModel::Next(*a),
            Step::Done(o) => StepModel::Done(o@),
        }
    }
}

/// Abstract value of a check-and-claim reply; an error is the store's.
pub open spec fn reply_model(reply: Result<ClaimResult, String>) -> Result<ClaimResult, Seq<char>> {
    match reply {
        Ok(c) => Ok(c),
        Err(e) => Err(e@),
    }
}

/// The failure reason recorded when a breaker short-circuits a call.
pub open spec fn short_circuit_reason(d: Dependency) -> Seq<char> {
    match d {
        Dependency::TemplateService => "circuit breaker open: template_service"@,
        Dependency::PushGateway => "circuit breaker open: push_gateway"@,
    }
}

/// The step after the reply of check-and-claim.
pub open spec fn claim_step(reply: Result<ClaimResult, Seq<char>>) -> StepModel {
    match reply {
        Ok(ClaimResult::Claimed) => StepModel::Next(Action::RenderTemplate),
        Ok(_) => StepModel::Done(OutcomeModel::SkippedDuplicate),
        Err(e) => StepModel::Done(OutcomeModel::TransientInfraFailure(e)),
    }
}

/// The step after a call to `d`, which goes on with `next` if it completed
/// and otherwise ends the run as a permanent failure. That includes a
/// breaker record out of reach: the key is claimed by now, so a retry would
/// only be skipped as a duplicate, and the message goes to the dead letters.
pub open spec fn call_step(d: Dependency, r: CallModel, next: Action) -> StepModel {
    match r {
        CallModel::Completed => StepModel::Next(next),
        CallModel::Failed(e) => StepModel::Done(OutcomeModel::PermanentFailure(e)),
        CallModel::ShortCircuited => StepModel::Done(
            OutcomeModel::PermanentFailure(short_circuit_reason(d)),
        ),
        CallModel::BreakerStoreUnavailable(e) => StepModel::Done(
            OutcomeModel::PermanentFailure(e),
        ),
    }
}

/// The stage that follows a step taken.
pub open spec fn stage_of(s: StepModel) -> Stage {
    match s {
        StepModel::Next(Action::RenderTemplate) => Stage::Rendering,
        StepModel::Next(Action::DeliverPush) => Stage::Delivering,
        StepModel::Next(Action::CommitSent) => Stage::Committing,
        StepModel::Done(_) => Stage::Finished,
    }
}

/// The outcome of a whole run, from the claim reply and the results of the
/// two downstream calls (each used only if the run gets that far).
pub open spec fn run_outcome(
    reply: Result<ClaimResult, Seq<char>>,
    render: CallModel,
    deliver: CallModel,
) -> OutcomeModel {
    match claim_step(reply) {
        StepModel::Done(o) => o,
        StepModel::Next(_) => match call_step(Dependency::TemplateService, render, Action::DeliverPush) {
            StepModel::Done(o) => o,
            StepModel::Next(_) => match call_step(Dependency::PushGateway, deliver, Action::CommitSent) {
                StepModel::Done(o) => o,
                StepModel::Next(_) => OutcomeModel::Success,
            },
        },
    }
}

/// One pipeline run for a parsed message.
pub struct Pipeline {
    stage: Stage,
}

impl View for Pipeline {
    type V = Stage;

    closed spec fn view(&self) -> Stage {
        self.stage
    }
}

fn short_circuit_text(d: Dependency) -> (r: String)
    ensures
        r@ == short_circuit_reason(d),
{
    match d {
        Dependency::TemplateService => "circuit breaker open: template_service".to_owned(),
        Dependency::PushGateway => "circuit breaker open: push_gateway".to_owned(),
    }
}

fn finish_call(d: Dependency, r: CallResult, next: Action) -> (s: Step)
    ensures
        s@ == call_step(d, r@, next),
{
    match r {
        CallResult::Completed => Step::Next(next),
        CallResult::Failed(e) => Step::Done(ProcessingOutcome::PermanentFailure(e)),
        CallResult::ShortCircuited => {
            Step::Done(ProcessingOutcome::PermanentFailure(short_circuit_text(d)))
        },
        CallResult::BreakerStoreUnavailable(e) => {
            Step::Done(ProcessingOutcome::PermanentFailure(e))
        },
    }
}

/// What to hand the pipeline for a call the breaker decided on: the
/// short-circuit result when it failed the call at once, `None` when the call
/// is to be made.
pub fn short_circuit_result(a: Admission) -> (r: Option<CallResult>)
    ensures
        r.is_some() == (a == Admission::ShortCircuit),
        r.is_some() ==> r.unwrap()@ == CallModel::ShortCircuited,
{
    match a {
        Admission::ShortCircuit => Some(CallResult::ShortCircuited),
        _ => None,
    }
}

impl Pipeline {
    /// A run that starts by asking for check-and-claim on the message's key.
    pub fn new() -> (r: Pipeline)
        ensures
            r@ == Stage::Claiming,
    {
        Pipeline { stage: Stage::Claiming }
    }

    /// Takes the reply of check-and-claim: a granted claim goes on to
    /// rendering, a key already sent or in flight ends the run as a skipped
    /// duplicate, and an unreachable store ends it as a transient failure.
    pub fn on_claim(&mut self, reply: Result<ClaimResult, String>) -> (r: Step)
        requires
            old(self)@ == Stage::Claiming,
        ensures
            r@ == claim_step(reply_model(reply)),
            final(self)@ == stage_of(r@),
    {
        let r = match reply {
            Ok(ClaimResult::Claimed) => Step::Next(Action::RenderTemplate),
            Ok(_) => Step::Done(ProcessingOutcome::SkippedDuplicate),
            Err(e) => Step::Done(ProcessingOutcome::TransientInfraFailure(e)),
        };
        self.stage = match r {
            Step::Next(_) => Stage::Rendering,
            Step::Done(_) => Stage::Finished,
        };
        r
    }

    /// Takes the result of rendering: on success the push is delivered next;
    /// otherwise the run ends as a failure.
    pub fn on_render(&mut self, result: CallResult) -> (r: Step)
        requires
            old(self)@ == Stage::Rendering,
        ensures
            r@ == call_step(Dependency::TemplateService, result@, Action::DeliverPush),
            final(self)@ == stage_of(r@),
    {
        let r = finish_call(Dependency::TemplateService, result, Action::DeliverPush);
        self.stage = match r {
            Step::Next(_) => Stage::Delivering,
            Step::Done(_) => Stage::Finished,
        };
        r
    }

    /// Takes the result of delivery: on success the key is committed next;
    /// otherwise the run ends as a failure.
    pub fn on_delivery(&mut self, result: CallResult) -> (r: Step)
        requires
            old(self)@ == Stage::Delivering,
        ensures
            r@ == call_step(Dependency::PushGateway, result@, Action::CommitSent),
            final(self)@ == stage_of(r@),
    {
        let r = finish_call(Dependency::PushGateway, result, Action::CommitSent);
        self.stage = match r {
            Step::Next(_) => Stage::Committing,
            Step::Done(_) => Stage::Finished,
        };
        r
    }

    /// Ends the run once commit-sent was attempted. The notification has
    /// gone out, so the run succeeds whether or not the commit applied.
    pub fn on_commit(&mut self) -> (r: ProcessingOutcome)
        requires
            old(self)@ == Stage::Committing,
        ensures
            r@ == OutcomeModel::Success,
            final(self)@ == Stage::Finished,
    {
        self.stage = Stage::Finished;
        ProcessingOutcome::Success
    }

    /// The result the run waits for.
    pub fn stage(&self) -> (r: Stage)
        ensures
            r == self@,
    {
        self.stage
    }
}

/// Two runs on the same key, claiming in turn through the atomic store
/// (with the first one's commit landing before or after the second claim, as
/// `commit_between` says): at most one succeeds, and when one does, the other
/// is a skipped duplicate, whatever the downstream services answer.
pub proof fn lemma_concurrent_runs_single_success(
    s: IdempotencyState,
    commit_between: bool,
    render1: CallModel,
    deliver1: CallModel,
    render2: CallModel,
    deliver2: CallModel,
)
    ensures
        ({
            let s1 = state_after_claim(s);
            let seen = if commit_between {
                state_after_commit(s1)
            } else {
                s1
            };
            let o1 = run_outcome(Ok(claim_reply(s)), render1, deliver1);
            let o2 = run_outcome(Ok(claim_reply(seen)), render2, deliver2);
            &&& !(o1 == OutcomeModel::Success && o2 == OutcomeModel::Success)
            &&& o1 == OutcomeModel::Success ==> o2 == OutcomeModel::SkippedDuplicate
            &&& o2 == OutcomeModel::Success ==> o1 == OutcomeModel::SkippedDuplicate
        }),
{
}

/// A run succeeds only if its claim was granted, and a key already sent or
/// in flight ends the run, skipped, before either downstream service is
/// called.
pub proof fn lemma_success_needs_claim(
    reply: Result<ClaimResult, Seq<char>>,
    render: CallModel,
    deliver: CallModel,
)
    ensures
        run_outcome(reply, render, deliver) == OutcomeModel::Success ==> reply == Ok::<
            ClaimResult,
            Seq<char>,
        >(ClaimResult::Claimed),
        reply == Ok::<ClaimResult, Seq<char>>(ClaimResult::AlreadySent) || reply == Ok::<
            ClaimResult,
            Seq<char>,
        >(ClaimResult::AlreadyProcessing) ==> claim_step(reply) == StepModel::Done(
            OutcomeModel::SkippedDuplicate,
        ),
{
}

} // verus!
