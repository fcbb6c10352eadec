//! Per-send delivery contexts and what the completion callback reports.
use vstd::prelude::*;

verus! {

#[verifier::external_type_specification]
#[verifier::external_body]
pub struct ExInstant(std::time::Instant);

/// Relies on std::time::Instant::now to stamp a send; nothing is known of
/// the instant it returns.
pub assume_specification[ std::time::Instant::now ]() -> std::time::Instant;

/// Relies on std::time::Instant::elapsed to measure a delivery's latency.
pub assume_specification[ std::time::Instant::elapsed ](i: &std::time::Instant) -> std::time::Duration;

/// Relies on std::time::Duration::as_millis to report that latency.
pub assume_specification[ std::time::Duration::as_millis ](d: &std::time::Duration) -> u128;

/// Created by `send` and handed to the client with the record; comes back
/// once, to the completion callback.
pub struct ProducerDeliveryOpaque {
    start: std::time::Instant,
}

impl ProducerDeliveryOpaque {
    /// A context stamped with the current time.
    pub fn new() -> (r: Self) {
        ProducerDeliveryOpaque { start: std::time::Instant::now() }
    }

    /// Milliseconds since the context was created.
    pub fn elapsed_ms(&self) -> u128 {
        self.start.elapsed().as_millis()
    }
}

/// The outcome of one send attempt, as the completion callback reports it.
#[derive(Debug, PartialEq, Eq)]
pub struct DeliveryReport {
    /// `Ok` when the broker acknowledged the record, else the client's error.
    pub outcome: Result<(), String>,
    /// Milliseconds from `send` to the callback.
    pub elapsed_ms: u128,
}

/// The completion sink the producer's client calls once per send attempt.
pub struct LoggingProducerContext;

impl LoggingProducerContext {
    /// Consumes the context of a finished send and reports its outcome with
    /// the latency since the send.
    pub fn delivery(&self, outcome: Result<(), String>, opaque: ProducerDeliveryOpaque) -> (r: DeliveryReport)
        ensures
            r.outcome == outcome,
    {
        let elapsed_ms = opaque.elapsed_ms();
        DeliveryReport { outcome, elapsed_ms }
    }
}

} // verus!
