//! Error types of the memory manager and of the allocator interface.

use vstd::prelude::*;
use vstd::string::StringExecFns;

verus! {

/// Failures of the memory manager.
#[derive(Debug, Clone)]
pub enum MemoryError {
    /// The allocator's statistics interface cannot be used.
    JemallocUnavailable,
    /// The monitoring task failed.
    MonitoringFailed(String),
    /// A global release failed.
    ReleaseFailed(String),
    /// The configuration is not usable.
    InvalidConfig(String),
    /// Usage figures could not be collected.
    MetricsCollectionFailed(String),
    /// The cache could not be cleaned.
    CacheCleanupFailed(String),
    /// The pressure level could not be computed.
    PressureCalculationFailed(String),
    /// The monitoring task could not be started.
    MonitoringInitFailed(String),
}

/// The text that describes `e`.
pub open spec fn memory_error_text(e: MemoryError) -> Seq<char> {
    match e {
        MemoryError::JemallocUnavailable => "Jemalloc interface not available"@,
        MemoryError::MonitoringFailed(s) => "Memory monitoring task failed: "@ + s@,
        MemoryError::ReleaseFailed(s) => "Global memory release failed: "@ + s@,
        MemoryError::InvalidConfig(s) => "Invalid memory configuration: "@ + s@,
        MemoryError::MetricsCollectionFailed(s) => "System metrics collection failed: "@ + s@,
        MemoryError::CacheCleanupFailed(s) => "Cache cleanup failed: "@ + s@,
        MemoryError::PressureCalculationFailed(s) => "Memory pressure calculation failed: "@ + s@,
        MemoryError::MonitoringInitFailed(s) => "Monitoring task initialization failed: "@ + s@,
    }
}

impl MemoryError {
    /// The text that describes this error.
    pub fn message(&self) -> (r: String)
        ensures
            r@ == memory_error_text(*self),
    {
        match self {
            MemoryError::JemallocUnavailable => String::from_str("Jemalloc interface not available"),
            MemoryError::MonitoringFailed(s) => String::from_str(
                "Memory monitoring task failed: ",
            ).concat(s.as_str()),
            MemoryError::ReleaseFailed(s) => String::from_str(
                "Global memory release failed: ",
            ).concat(s.as_str()),
            MemoryError::InvalidConfig(s) => String::from_str(
                "Invalid memory configuration: ",
            ).concat(s.as_str()),
            MemoryError::MetricsCollectionFailed(s) => String::from_str(
                "System metrics collection failed: ",
            ).concat(s.as_str()),
            MemoryError::CacheCleanupFailed(s) => String::from_str("Cache cleanup failed: ").concat(
                s.as_str(),
            ),
            MemoryError::PressureCalculationFailed(s) => String::from_str(
                "Memory pressure calculation failed: ",
            ).concat(s.as_str()),
            MemoryError::MonitoringInitFailed(s) => String::from_str(
                "Monitoring task initialization failed: ",
            ).concat(s.as_str()),
        }
    }
}

/// Failures of the allocator statistics interface.
#[derive(Debug, Clone)]
pub enum JemallocError {
    /// The allocator is not available on this platform.
    NotAvailable,
    /// A statistic could not be read.
    StatsFailed(String),
    /// Dirty pages could not be purged.
    PurgeFailed(String),
    /// The statistics epoch could not be advanced.
    EpochFailed(String),
}

/// The text that describes `e`.
pub open spec fn jemalloc_error_text(e: JemallocError) -> Seq<char> {
    match e {
        JemallocError::NotAvailable => "Jemalloc not available on this platform"@,
        JemallocError::StatsFailed(s) => "Failed to read jemalloc statistics: "@ + s@,
        JemallocError::PurgeFailed(s) => "Failed to purge dirty pages: "@ + s@,
        JemallocError::EpochFailed(s) => "Failed to advance epoch: "@ + s@,
    }
}

impl JemallocError {
    /// The text that describes this error.
    pub fn message(&self) -> (r: String)
        ensures
            r@ == jemalloc_error_text(*self),
    {
        match self {
            JemallocError::NotAvailable => String::from_str("Jemalloc not available on this platform"),
            JemallocError::StatsFailed(s) => String::from_str(
                "Failed to read jemalloc statistics: ",
            ).concat(s.as_str()),
            JemallocError::PurgeFailed(s) => String::from_str("Failed to purge dirty pages: ").concat(
                s.as_str(),
            ),
            JemallocError::EpochFailed(s) => String::from_str("Failed to advance epoch: ").concat(
                s.as_str(),
            ),
        }
    }
}

} // verus!
