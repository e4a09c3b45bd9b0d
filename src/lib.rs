//! Decision logic of a notification-dispatch worker: duplicate suppression,
//! circuit breaking of downstream services, bounded concurrency, the
//! per-message pipeline and the routing of outcomes back to the broker.
pub mod breaker;
pub mod idempotency;
pub mod limiter;
pub mod message;
pub mod pipeline;
pub mod routing;
