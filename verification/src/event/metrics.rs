//! Hooks through which the event bus reports what it does.

use vstd::prelude::*;
use crate::event::bus::HandlerResult;

verus! {

/// Receives a notice of every emission and of every handler's result. Each
/// notice does nothing unless an implementation says otherwise.
pub trait MetricsSink: Send + Sync {
    /// An event was emitted to `handler_count` handlers.
    fn on_emit(&self, pattern: &str, handler_count: usize) {
    }

    /// The handler `handler_id` finished with `result`.
    fn on_handler_result(&self, pattern: &str, handler_id: &str, result: &HandlerResult) {
    }

    /// The handler `handler_id` panicked and was recovered.
    fn on_panic(&self, pattern: &str, handler_id: &str, error: &str) {
    }
}

/// The sink that collects nothing.
#[derive(Clone, Copy, Debug)]
pub struct NoopMetricsSink;

impl Default for NoopMetricsSink {
    fn default() -> Self {
        NoopMetricsSink
    }
}

impl MetricsSink for NoopMetricsSink {

}

} // verus!
