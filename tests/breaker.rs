use push_service::breaker::{Admission, BreakerConfig, BreakerState, Phase};
use push_service::pipeline::{short_circuit_result, CallResult, Pipeline, ProcessingOutcome, Step};
use push_service::idempotency::ClaimResult;
use push_service::routing::{finalize, BrokerAction, DispatchResult};

fn config() -> BreakerConfig {
    BreakerConfig { failure_threshold: 5, reset_timeout_ms: 30_000 }
}

#[test]
fn five_failures_open_the_breaker_and_the_sixth_call_is_dead_lettered() {
    let cfg = config();
    let mut s = BreakerState::new();
    let mut downstream_calls = 0;
    for i in 0..5u64 {
        let (adm, next) = s.before_call(&cfg, 1_000 + i);
        assert_eq!(adm, Admission::Proceed);
        downstream_calls += 1;
        s = next.record_failure(&cfg, 1_000 + i);
        if i < 4 {
            assert_eq!(s.phase, Phase::Closed);
            assert_eq!(s.failure_count, (i + 1) as u32);
        }
    }
    assert_eq!(s.phase, Phase::Open);
    assert_eq!(s.opened_at_ms, 1_004);

    let (adm, next) = s.before_call(&cfg, 1_005);
    assert_eq!(adm, Admission::ShortCircuit);
    assert_eq!(next, s);
    assert_eq!(downstream_calls, 5);

    let mut p = Pipeline::new();
    p.on_claim(Ok(ClaimResult::Claimed));
    let step = p.on_render(CallResult::ShortCircuited);
    let reason = "circuit breaker open: template_service".to_string();
    assert_eq!(step, Step::Done(ProcessingOutcome::PermanentFailure(reason.clone())));
    let f = finalize(DispatchResult::Outcome(ProcessingOutcome::PermanentFailure(reason.clone())));
    assert_eq!(f.action, BrokerAction::Reject { requeue: false });
    assert_eq!(f.dead_letter_reason, Some(reason));
}

#[test]
fn one_trial_after_cooldown_and_success_closes() {
    let cfg = config();
    let open = BreakerState { phase: Phase::Open, failure_count: 5, opened_at_ms: 10_000 };
    assert_eq!(open.before_call(&cfg, 39_999).0, Admission::ShortCircuit);
    let (adm, half) = open.before_call(&cfg, 40_000);
    assert_eq!(adm, Admission::Trial);
    assert_eq!(half.phase, Phase::HalfOpen);
    // While the trial runs, no other call goes through.
    assert_eq!(half.before_call(&cfg, 40_001).0, Admission::ShortCircuit);
    let closed = half.record_success();
    assert_eq!(closed.phase, Phase::Closed);
    assert_eq!(closed.failure_count, 0);
    assert_eq!(closed.before_call(&cfg, 40_002).0, Admission::Proceed);
}

#[test]
fn failed_trial_reopens_and_restarts_cooldown() {
    let cfg = config();
    let open = BreakerState { phase: Phase::Open, failure_count: 5, opened_at_ms: 10_000 };
    let (_, half) = open.before_call(&cfg, 45_000);
    let reopened = half.record_failure(&cfg, 46_000);
    assert_eq!(reopened.phase, Phase::Open);
    assert_eq!(reopened.opened_at_ms, 46_000);
    assert_eq!(reopened.before_call(&cfg, 75_999).0, Admission::ShortCircuit);
    assert_eq!(reopened.before_call(&cfg, 76_000).0, Admission::Trial);
}

#[test]
fn success_resets_the_count_before_the_threshold() {
    let cfg = config();
    let s = BreakerState::new().record_failure(&cfg, 1).record_failure(&cfg, 2);
    assert_eq!(s.failure_count, 2);
    let s = s.record_success().record_failure(&cfg, 3);
    assert_eq!(s.phase, Phase::Closed);
    assert_eq!(s.failure_count, 1);
}

#[test]
fn clock_behind_opening_time_keeps_breaker_open() {
    let cfg = config();
    let open = BreakerState { phase: Phase::Open, failure_count: 5, opened_at_ms: 50_000 };
    assert_eq!(open.before_call(&cfg, 10).0, Admission::ShortCircuit);
}

#[test]
fn phase_codes_round_trip() {
    for p in [Phase::Closed, Phase::Open, Phase::HalfOpen] {
        assert_eq!(Phase::from_code(p.code()), Some(p));
    }
    assert_eq!(Phase::Open.code(), 1);
    assert_eq!(Phase::from_code(3), None);
}

#[test]
fn record_outcome_follows_the_result() {
    let cfg = BreakerConfig { failure_threshold: 1, reset_timeout_ms: 100 };
    let s = BreakerState::new();
    let failed = s.record_outcome(&cfg, 7, false);
    assert_eq!(failed, BreakerState { phase: Phase::Open, failure_count: 1, opened_at_ms: 7 });
    let ok = failed.record_outcome(&cfg, 8, true);
    assert_eq!(ok.phase, Phase::Closed);
    assert_eq!(ok.failure_count, 0);
}

#[test]
fn lost_trial_lets_a_new_trial_through_after_a_cooldown() {
    let cfg = config();
    let open = BreakerState { phase: Phase::Open, failure_count: 5, opened_at_ms: 10_000 };
    let (_, half) = open.before_call(&cfg, 40_000);
    assert_eq!(half.opened_at_ms, 40_000);
    assert_eq!(half.before_call(&cfg, 70_000).0, Admission::ShortCircuit);
    let (adm, again) = half.before_call(&cfg, 70_001);
    assert_eq!(adm, Admission::Trial);
    assert_eq!(again.phase, Phase::HalfOpen);
    assert_eq!(again.opened_at_ms, 70_001);
}

#[test]
fn zero_cooldown_still_admits_one_trial_at_a_time() {
    let cfg = BreakerConfig { failure_threshold: 1, reset_timeout_ms: 0 };
    let open = BreakerState { phase: Phase::Open, failure_count: 1, opened_at_ms: 500 };
    let (adm, half) = open.before_call(&cfg, 500);
    assert_eq!(adm, Admission::Trial);
    assert_eq!(half.before_call(&cfg, 500).0, Admission::ShortCircuit);
    assert_eq!(half.before_call(&cfg, 501).0, Admission::Trial);
}

#[test]
fn admission_maps_to_a_short_circuit_result() {
    assert_eq!(short_circuit_result(Admission::ShortCircuit), Some(CallResult::ShortCircuited));
    assert_eq!(short_circuit_result(Admission::Proceed), None);
    assert_eq!(short_circuit_result(Admission::Trial), None);
}
