//! The event system: subscriptions by pattern, handler results and reports.

pub mod bus;
pub mod metrics;
pub mod payload;
pub mod subscription;

pub use bus::{EmitReport, EventBus, EventBusBuilder, HandlerResult};
pub use metrics::{MetricsSink, NoopMetricsSink};
pub use payload::{EmptyPayload, TextPayload};
pub use subscription::Subscription;
