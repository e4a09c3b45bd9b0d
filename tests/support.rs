use push_service::idempotency::IdempotencyState;
use push_service::limiter::ConcurrencyLimiter;
use push_service::message::{DlqMessage, NotificationMessage};

fn message() -> NotificationMessage {
    NotificationMessage {
        trace_id: "trace-1".to_string(),
        user_id: "user-7".to_string(),
        template_code: "welcome".to_string(),
        recipient: "device-token".to_string(),
        idempotency_key: "req-42".to_string(),
        params: vec![("name".to_string(), "\"Ada\"".to_string())],
    }
}

fn assert_same(a: &NotificationMessage, b: &NotificationMessage) {
    assert_eq!(a.trace_id, b.trace_id);
    assert_eq!(a.user_id, b.user_id);
    assert_eq!(a.template_code, b.template_code);
    assert_eq!(a.recipient, b.recipient);
    assert_eq!(a.idempotency_key, b.idempotency_key);
    assert_eq!(a.params, b.params);
}

#[test]
fn dead_letter_keeps_message_and_stamps_time() {
    let d = DlqMessage::new(message(), "template missing".to_string(), 1_662_921_288_123).unwrap();
    assert_same(&d.original_message, &message());
    assert_eq!(d.failure_reason, "template missing");
    assert_eq!(d.failed_at, "2022-09-11T18:34:48.123Z");
}

#[test]
fn dead_letter_at_epoch() {
    let d = DlqMessage::new(message(), String::new(), 0).unwrap();
    assert_eq!(d.failed_at, "1970-01-01T00:00:00.000Z");
    assert_eq!(d.failure_reason, "");
}

#[test]
fn dead_letter_at_end_of_four_digit_years() {
    let d = DlqMessage::new(message(), "x".to_string(), 253_402_300_799_999).unwrap();
    assert_eq!(d.failed_at, "9999-12-31T23:59:59.999Z");
}

#[test]
fn dead_letter_out_of_clock_range() {
    assert!(DlqMessage::new(message(), "x".to_string(), i64::MAX).is_none());
    assert!(DlqMessage::new(message(), "x".to_string(), 253_402_300_800_000).is_none());
    assert!(DlqMessage::new(message(), "x".to_string(), -62_167_219_200_001).is_none());
    assert!(DlqMessage::new(message(), "x".to_string(), i64::MIN).is_none());
}

#[test]
fn dead_letter_before_the_epoch() {
    let d = DlqMessage::new(message(), "x".to_string(), -1).unwrap();
    assert_eq!(d.failed_at, "1969-12-31T23:59:59.999Z");
    let d = DlqMessage::new(message(), "x".to_string(), -62_167_219_200_000).unwrap();
    assert_eq!(d.failed_at, "0000-01-01T00:00:00.000Z");
}

#[test]
fn dead_letter_now_is_well_formed() {
    let d = DlqMessage::now(message(), "boom".to_string()).unwrap();
    assert_same(&d.original_message, &message());
    assert_eq!(d.failure_reason, "boom");
    let t: Vec<char> = d.failed_at.chars().collect();
    assert_eq!(t.len(), 24);
    for (i, c) in t.iter().enumerate() {
        match i {
            4 | 7 => assert_eq!(*c, '-'),
            10 => assert_eq!(*c, 'T'),
            13 | 16 => assert_eq!(*c, ':'),
            19 => assert_eq!(*c, '.'),
            23 => assert_eq!(*c, 'Z'),
            _ => assert!(c.is_ascii_digit()),
        }
    }
}

#[test]
fn limiter_never_exceeds_capacity() {
    let mut l = ConcurrencyLimiter::new(2);
    assert_eq!(l.available(), 2);
    assert!(l.try_acquire());
    assert!(l.try_acquire());
    assert!(!l.try_acquire());
    assert_eq!(l.in_flight(), 2);
    assert_eq!(l.available(), 0);
    l.release();
    assert_eq!(l.in_flight(), 1);
    assert!(l.try_acquire());
    assert!(!l.try_acquire());
    assert_eq!(l.capacity(), 2);
}

#[test]
fn limiter_of_one_serialises_runs() {
    let mut l = ConcurrencyLimiter::new(1);
    assert!(l.try_acquire());
    assert!(!l.try_acquire());
    l.release();
    assert!(l.try_acquire());
}

#[test]
fn store_values_round_trip() {
    for s in [IdempotencyState::Unclaimed, IdempotencyState::Processing, IdempotencyState::Sent] {
        assert_eq!(IdempotencyState::from_store_value(&s.to_store_value()), Some(s));
    }
    assert_eq!(IdempotencyState::Processing.to_store_value(), Some("processing".to_string()));
    assert_eq!(IdempotencyState::Sent.to_store_value(), Some("sent".to_string()));
    assert_eq!(IdempotencyState::Unclaimed.to_store_value(), None);
    assert_eq!(IdempotencyState::from_store_value(&Some("bogus".to_string())), None);
}
