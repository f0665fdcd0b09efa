//! Adaptive memory pressure monitoring and release control.
//!
//! The library holds the decisions of a background memory monitor: how usage
//! is classified against a threshold, when a release may run, how the results
//! of a release are folded into the monitor's state, how the sample history is
//! bounded and summarised, and how the polling interval adapts. The caller
//! performs the waiting, the clock reads and the cache and process queries, and
//! hands their outcomes to these functions.
pub mod config;
pub mod error;
pub mod history;
pub mod jemalloc;
pub mod monitor;
pub mod pressure;
pub mod schedule;
pub mod stats;

pub use config::{
    default_check_interval, default_gc_cooldown, default_memory_threshold, Config, EmailConfig,
    MemoryConfig, MongoConfig, OAuthConfig,
};
pub use error::{JemallocError, MemoryError};
pub use history::{HistorySample, HistoryTracker, MemoryTrend};
pub use jemalloc::{JemallocInterface, JemallocStats};
pub use monitor::{
    allocator_usage_mb, assess_release, cache_cleanup_outcome, freed_mb, jemalloc_check_outcome,
    usage_from_allocator, usage_from_process, CycleOutcome, MemoryManager, MemoryMonitorState,
    MemoryStatus, MemoryUsageReport, MonitorLoop, PurgeOutcome, ReleaseEffect, ReleaseObservations,
    ReleaseResult, UsageAverage,
};
pub use pressure::{classify, MemoryPressure};
pub use schedule::{
    adaptive_interval, failure_severity, handle_monitoring_failure, FailureSeverity, MonitoringAlert,
};
pub use stats::PerformanceStats;
