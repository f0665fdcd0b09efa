//! Counters of the monitor's own work.

use vstd::prelude::*;

verus! {

/// Interval reported before the monitor first adapts it, in seconds.
pub const INITIAL_DYNAMIC_INTERVAL: u64 = 30;

/// Running counters of the monitor's own work. Times are summed, so each
/// average is the total divided by its count. Counters saturate.
#[derive(Debug, Clone, Copy, PartialEq, Eq, Structural)]
pub struct PerformanceStats {
    /// Monitoring cycles started.
    pub monitoring_cycles: u64,
    /// Sum of the cycle durations, in ms.
    pub total_monitoring_time_ms: u64,
    /// Longest cycle duration, in ms.
    pub max_monitoring_time_ms: u64,
    /// Usage queries that succeeded.
    pub memory_query_success: u64,
    /// Usage queries that failed.
    pub memory_query_failures: u64,
    /// Sum of the usage query durations, in ms.
    pub total_memory_query_time_ms: u64,
    /// Times the polling interval changed.
    pub interval_adjustments: u64,
    /// Current polling interval, in seconds.
    pub current_dynamic_interval: u64,
}

impl Default for PerformanceStats {
    fn default() -> (r: Self)
        ensures
            r == (PerformanceStats {
                monitoring_cycles: 0,
                total_monitoring_time_ms: 0,
                max_monitoring_time_ms: 0,
                memory_query_success: 0,
                memory_query_failures: 0,
                total_memory_query_time_ms: 0,
                interval_adjustments: 0,
                current_dynamic_interval: INITIAL_DYNAMIC_INTERVAL,
            }),
    {
        PerformanceStats {
            monitoring_cycles: 0,
            total_monitoring_time_ms: 0,
            max_monitoring_time_ms: 0,
            memory_query_success: 0,
            memory_query_failures: 0,
            total_memory_query_time_ms: 0,
            interval_adjustments: 0,
            current_dynamic_interval: INITIAL_DYNAMIC_INTERVAL,
        }
    }
}

/// `s` after one usage query that took `duration_ms` and succeeded or not.
pub open spec fn query_recorded(s: PerformanceStats, duration_ms: u64, success: bool) -> PerformanceStats {
    PerformanceStats {
        memory_query_success: if success {
            s.memory_query_success.saturating_add(1)
        } else {
            s.memory_query_success
        },
        memory_query_failures: if success {
            s.memory_query_failures
        } else {
            s.memory_query_failures.saturating_add(1)
        },
        total_memory_query_time_ms: s.total_memory_query_time_ms.saturating_add(duration_ms),
        ..s
    }
}

/// `s` after a monitoring cycle started.
pub open spec fn cycle_started(s: PerformanceStats) -> PerformanceStats {
    PerformanceStats { monitoring_cycles: s.monitoring_cycles.saturating_add(1), ..s }
}

/// `s` after a monitoring cycle that took `duration_ms` finished.
pub open spec fn cycle_timed(s: PerformanceStats, duration_ms: u64) -> PerformanceStats {
    PerformanceStats {
        total_monitoring_time_ms: s.total_monitoring_time_ms.saturating_add(duration_ms),
        max_monitoring_time_ms: if duration_ms > s.max_monitoring_time_ms {
            duration_ms
        } else {
            s.max_monitoring_time_ms
        },
        ..s
    }
}

/// `s` after the polling interval changed to `interval_secs`.
pub open spec fn interval_changed(s: PerformanceStats, interval_secs: u64) -> PerformanceStats {
    PerformanceStats {
        interval_adjustments: s.interval_adjustments.saturating_add(1),
        current_dynamic_interval: interval_secs,
        ..s
    }
}

impl PerformanceStats {
    /// Counts one usage query that took `duration_ms` and succeeded or not.
    pub fn record_query(&mut self, duration_ms: u64, success: bool)
        ensures
            *final(self) == query_recorded(*old(self), duration_ms, success),
    {
        if success {
            self.memory_query_success = self.memory_query_success.saturating_add(1);
        } else {
            self.memory_query_failures = self.memory_query_failures.saturating_add(1);
        }
        self.total_memory_query_time_ms = self.total_memory_query_time_ms.saturating_add(
            duration_ms,
        );
    }

    /// Counts the start of a monitoring cycle.
    pub fn record_cycle_start(&mut self)
        ensures
            *final(self) == cycle_started(*old(self)),
    {
        self.monitoring_cycles = self.monitoring_cycles.saturating_add(1);
    }

    /// Folds the duration of a finished cycle into the total and the maximum.
    pub fn record_cycle_time(&mut self, duration_ms: u64)
        ensures
            *final(self) == cycle_timed(*old(self), duration_ms),
    {
        if duration_ms > self.max_monitoring_time_ms {
            self.max_monitoring_time_ms = duration_ms;
        }
        self.total_monitoring_time_ms = self.total_monitoring_time_ms.saturating_add(duration_ms);
    }

    /// Records that the polling interval changed to `interval_secs`.
    pub fn record_interval_change(&mut self, interval_secs: u64)
        ensures
            *final(self) == interval_changed(*old(self), interval_secs),
    {
        self.interval_adjustments = self.interval_adjustments.saturating_add(1);
        self.current_dynamic_interval = interval_secs;
    }
}

} // verus!
