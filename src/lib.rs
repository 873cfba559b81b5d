//! Host-metrics observer core: classification of readings against alert
//! thresholds, the store of latest readings, display preferences, the
//! status-line renderer, and the parsing of what the metric readers report.

pub mod config;
pub mod level;
pub mod number;
pub mod reading;
pub mod render;
pub mod snapshot;
pub mod text;

pub use config::{ConfigRecord, DisplayMode, MenuChecks, TrayConfig, UiEvent};
pub use level::{
    level_by_threshold, AlertLevel, AlertThresholds, CpuPolicy, MemoryPolicy, Metric, Millisecond,
    NetworkPolicy, Percent, Policies, Policy,
};
pub use reading::{
    latency_from_capture, parse_memory_pressure, parse_ping_latency_ms, read_network_latency_ms,
    ReadError, LATENCY_PATTERN,
};
pub use render::{advance_rotation, format_title, icon, visible_metric_count, TrayRenderer};
pub use snapshot::{ClassifiedSnapshot, MetricKind, MetricsSnapshot};
