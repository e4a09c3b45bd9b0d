//! Circuit breaker: a per-dependency state machine that stops calls to a
//! failing downstream service and lets one trial call through after a
//! cooldown. The record is kept in a shared store; these functions compute
//! each new record from the old one.
use vstd::prelude::*;

verus! {

/// Phase of a breaker.
#[derive(Clone, Copy, Debug, PartialEq, Eq, Structural)]
pub enum Phase {
    Closed,
    Open,
    HalfOpen,
}

/// Settings of one breaker.
#[derive(Clone, Copy, Debug, PartialEq, Eq, Structural)]
pub struct BreakerConfig {
    /// Consecutive failures that open the breaker; at least one.
    pub failure_threshold: u32,
    /// Milliseconds an open breaker waits before a trial call.
    pub reset_timeout_ms: u64,
}

impl BreakerConfig {
    pub open spec fn wf(&self) -> bool {
        self.failure_threshold >= 1
    }
}

/// The shared record of one breaker.
#[derive(Clone, Copy, Debug, PartialEq, Eq, Structural)]
pub struct BreakerState {
    pub phase: Phase,
    /// Consecutive failures seen since the last success.
    pub failure_count: u32,
    /// When the breaker last opened or, while half-open, when its trial call
    /// was let through; in milliseconds since the epoch.
    pub opened_at_ms: u64,
}

/// What the breaker decides about a call that is about to be made.
#[derive(Clone, Copy, Debug, PartialEq, Eq, Structural)]
pub enum Admission {
    /// The breaker is closed: make the call.
    Proceed,
    /// The cooldown is over: make the call as the single trial.
    Trial,
    /// Fail the call at once without invoking the dependency.
    ShortCircuit,
}

/// Milliseconds from `opened_at` to `now`; a clock behind the opening time
/// counts as no time elapsed.
pub open spec fn elapsed(opened_at: u64, now: u64) -> int {
    if now >= opened_at {
        now - opened_at
    } else {
        0
    }
}

/// Whether an open breaker's cooldown is over at `now`.
pub open spec fn cooldown_over(cfg: BreakerConfig, s: BreakerState, now: u64) -> bool {
    elapsed(s.opened_at_ms, now) >= cfg.reset_timeout_ms
}

/// Whether a half-open breaker's trial counts as lost at `now`: strictly
/// more than a cooldown has passed since it was let through with no result
/// recorded (its worker is gone).
pub open spec fn trial_lost(cfg: BreakerConfig, s: BreakerState, now: u64) -> bool {
    elapsed(s.opened_at_ms, now) > cfg.reset_timeout_ms
}

/// The decision about a call made at `now`.
pub open spec fn admission(cfg: BreakerConfig, s: BreakerState, now: u64) -> Admission {
    match s.phase {
        Phase::Closed => Admission::Proceed,
        Phase::Open => if cooldown_over(cfg, s, now) {
            Admission::Trial
        } else {
            Admission::ShortCircuit
        },
        Phase::HalfOpen => if trial_lost(cfg, s, now) {
            Admission::Trial
        } else {
            Admission::ShortCircuit
        },
    }
}

/// The record after the decision about a call at `now`: a granted trial puts
/// the breaker in `HalfOpen` from `now`, so that no second trial is granted
/// within a cooldown.
pub open spec fn state_after_admission(cfg: BreakerConfig, s: BreakerState, now: u64) -> BreakerState {
    if admission(cfg, s, now) == Admission::Trial {
        BreakerState { phase: Phase::HalfOpen, failure_count: s.failure_count, opened_at_ms: now }
    } else {
        s
    }
}

/// The record after a call succeeded.
pub open spec fn state_after_success(s: BreakerState) -> BreakerState {
    BreakerState { phase: Phase::Closed, failure_count: 0, opened_at_ms: s.opened_at_ms }
}

/// The failure count after one more failure, held at the largest `u32`.
pub open spec fn count_after_failure(c: u32) -> u32 {
    if c < u32::MAX {
        (c + 1) as u32
    } else {
        c
    }
}

/// The record after a call failed at `now`.
pub open spec fn state_after_failure(cfg: BreakerConfig, s: BreakerState, now: u64) -> BreakerState {
    let count = count_after_failure(s.failure_count);
    match s.phase {
        Phase::Closed => if count >= cfg.failure_threshold {
            BreakerState { phase: Phase::Open, failure_count: count, opened_at_ms: now }
        } else {
            BreakerState { phase: Phase::Closed, failure_count: count, opened_at_ms: s.opened_at_ms }
        },
        Phase::HalfOpen => BreakerState { phase: Phase::Open, failure_count: count, opened_at_ms: now },
        Phase::Open => BreakerState { failure_count: count, ..s },
    }
}

/// The record after failed calls at the times `times`, in order, from `s`.
pub open spec fn state_after_failures(cfg: BreakerConfig, s: BreakerState, times: Seq<u64>) -> BreakerState
    decreases times.len(),
{
    if times.len() == 0 {
        s
    } else {
        state_after_failure(cfg, state_after_failures(cfg, s, times.drop_last()), times.last())
    }
}

/// Fewer consecutive failures than the threshold leave a closed breaker
/// closed, with each of them counted.
pub proof fn lemma_failures_below_threshold(cfg: BreakerConfig, s: BreakerState, times: Seq<u64>)
    requires
        s.phase == Phase::Closed,
        s.failure_count + times.len() < cfg.failure_threshold,
    ensures
        state_after_failures(cfg, s, times).phase == Phase::Closed,
        state_after_failures(cfg, s, times).failure_count == s.failure_count + times.len(),
    decreases times.len(),
{
    if times.len() > 0 {
        lemma_failures_below_threshold(cfg, s, times.drop_last());
    }
}

/// After as many consecutive failures as the threshold, starting from a
/// closed breaker with no failures counted, the breaker is open since the
/// last failure, and every call before the cooldown is over is failed at once
/// without invoking the dependency.
pub proof fn lemma_threshold_failures_open(cfg: BreakerConfig, s: BreakerState, times: Seq<u64>)
    requires
        cfg.wf(),
        s.phase == Phase::Closed,
        s.failure_count == 0,
        times.len() == cfg.failure_threshold,
    ensures
        state_after_failures(cfg, s, times).phase == Phase::Open,
        state_after_failures(cfg, s, times).opened_at_ms == times.last(),
        forall|now: u64|
            elapsed(times.last(), now) < cfg.reset_timeout_ms ==> {
                &&& admission(cfg, state_after_failures(cfg, s, times), now) == Admission::ShortCircuit
                &&& state_after_admission(cfg, state_after_failures(cfg, s, times), now)
                    == state_after_failures(cfg, s, times)
            },
{
    lemma_failures_below_threshold(cfg, s, times.drop_last());
}

/// Once the cooldown of an open breaker is over, one trial call is let
/// through and every further call until a cooldown after it (the same
/// instant included, whatever the cooldown) is failed at once;
/// a successful trial closes the breaker with no failures counted, and a
/// failed trial opens it again, so that the cooldown starts over from the
/// failure.
pub proof fn lemma_single_trial(cfg: BreakerConfig, s: BreakerState, now: u64, later: u64)
    requires
        s.phase == Phase::Open,
        cooldown_over(cfg, s, now),
    ensures
        admission(cfg, s, now) == Admission::Trial,
        state_after_admission(cfg, s, now).phase == Phase::HalfOpen,
        forall|t: u64|
            elapsed(now, t) <= cfg.reset_timeout_ms ==> admission(
                cfg,
                state_after_admission(cfg, s, now),
                t,
            ) == Admission::ShortCircuit,
        admission(cfg, state_after_admission(cfg, s, now), now) == Admission::ShortCircuit,
        state_after_success(state_after_admission(cfg, s, now)).phase == Phase::Closed,
        state_after_success(state_after_admission(cfg, s, now)).failure_count == 0,
        state_after_failure(cfg, state_after_admission(cfg, s, now), later).phase == Phase::Open,
        state_after_failure(cfg, state_after_admission(cfg, s, now), later).opened_at_ms == later,
        forall|t: u64|
            elapsed(later, t) < cfg.reset_timeout_ms ==> admission(
                cfg,
                state_after_failure(cfg, state_after_admission(cfg, s, now), later),
                t,
            ) == Admission::ShortCircuit,
{
}

/// A half-open breaker whose trial never reported back lets a new trial
/// through once strictly more than a cooldown has passed since the lost one
/// began.
pub proof fn lemma_lost_trial_recovers(cfg: BreakerConfig, s: BreakerState, now: u64)
    requires
        s.phase == Phase::HalfOpen,
        trial_lost(cfg, s, now),
    ensures
        admission(cfg, s, now) == Admission::Trial,
        state_after_admission(cfg, s, now).phase == Phase::HalfOpen,
        state_after_admission(cfg, s, now).opened_at_ms == now,
{
}

impl BreakerState {
    /// The record of a breaker that has never failed.
    pub fn new() -> (r: BreakerState)
        ensures
            r.phase == Phase::Closed,
            r.failure_count == 0,
            r.opened_at_ms == 0,
    {
        BreakerState { phase: Phase::Closed, failure_count: 0, opened_at_ms: 0 }
    }

    /// Decides about a call made at `now`, and returns the decision with the
    /// record to store.
    pub fn before_call(&self, cfg: &BreakerConfig, now: u64) -> (r: (Admission, BreakerState))
        ensures
            r.0 == admission(*cfg, *self, now),
            r.1 == state_after_admission(*cfg, *self, now),
    {
        if self.phase == Phase::Closed {
            return (Admission::Proceed, *self);
        }
        let elapsed: u64 = if now >= self.opened_at_ms {
            now - self.opened_at_ms
        } else {
            0
        };
        let admitted = if self.phase == Phase::Open {
            elapsed >= cfg.reset_timeout_ms
        } else {
            elapsed > cfg.reset_timeout_ms
        };
        if admitted {
            (
                Admission::Trial,
                BreakerState { phase: Phase::HalfOpen, failure_count: self.failure_count, opened_at_ms: now },
            )
        } else {
            (Admission::ShortCircuit, *self)
        }
    }

    /// The record after a call succeeded: closed, with no failures counted.
    pub fn record_success(&self) -> (r: BreakerState)
        ensures
            r == state_after_success(*self),
    {
        BreakerState { phase: Phase::Closed, failure_count: 0, opened_at_ms: self.opened_at_ms }
    }

    /// The record after a call that ended at `now`, successful or not.
    pub fn record_outcome(&self, cfg: &BreakerConfig, now: u64, succeeded: bool) -> (r: BreakerState)
        ensures
            r == if succeeded {
                state_after_success(*self)
            } else {
                state_after_failure(*cfg, *self, now)
            },
    {
        if succeeded {
            self.record_success()
        } else {
            self.record_failure(cfg, now)
        }
    }

    /// The record after a call failed at `now`.
    pub fn record_failure(&self, cfg: &BreakerConfig, now: u64) -> (r: BreakerState)
        ensures
            r == state_after_failure(*cfg, *self, now),
    {
        let count: u32 = if self.failure_count < u32::MAX {
            self.failure_count + 1
        } else {
            self.failure_count
        };
        match self.phase {
            Phase::Closed => if count >= cfg.failure_threshold {
                BreakerState { phase: Phase::Open, failure_count: count, opened_at_ms: now }
            } else {
                BreakerState { phase: Phase::Closed, failure_count: count, opened_at_ms: self.opened_at_ms }
            },
            Phase::HalfOpen => BreakerState { phase: Phase::Open, failure_count: count, opened_at_ms: now },
            Phase::Open => BreakerState { failure_count: count, ..*self },
        }
    }
}

impl Phase {
    /// The number this phase is stored under.
    pub fn code(&self) -> (r: u8)
        ensures
            r == phase_code(*self),
    {
        match self {
            Phase::Closed => 0,
            Phase::Open => 1,
            Phase::HalfOpen => 2,
        }
    }

    /// The phase stored under `code`, if any.
    pub fn from_code(code: u8) -> (r: Option<Phase>)
        ensures
            r.is_some() <==> code <= 2,
            r.is_some() ==> phase_code(r.unwrap()) == code,
    {
        match code {
            0 => Some(Phase::Closed),
            1 => Some(Phase::Open),
            2 => Some(Phase::HalfOpen),
            _ => None,
        }
    }
}

/// The number a phase is stored under.
pub open spec fn phase_code(p: Phase) -> u8 {
    match p {
        Phase::Closed => 0,
        Phase::Open => 1,
        Phase::HalfOpen => 2,
    }
}

} // verus!
