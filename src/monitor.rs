//! The memory manager: its state, the release pipeline's decisions and the
//! monitoring loop's control state.

use crate::config::MemoryConfig;
use crate::error::{jemalloc_error_text, JemallocError, MemoryError};
use crate::history::{recorded, trend_of, usage_total, HistorySample, HistoryTracker, MemoryTrend};
use crate::jemalloc::JemallocInterface;
use crate::pressure::{classify, pressure_of, MemoryPressure};
use crate::schedule::{
    adaptive_interval, alert_of, handle_monitoring_failure, interval_for, MonitoringAlert,
    ADJUSTMENT_SPACING_MS,
};
use crate::stats::{
    cycle_started, cycle_timed, interval_changed, query_recorded, PerformanceStats,
    INITIAL_DYNAMIC_INTERVAL,
};
use vstd::prelude::*;
use vstd::string::StringExecFns;

verus! {

/// Number of usage figures kept for charting.
pub const RECENT_USAGE_CAPACITY: usize = 60;

/// Bytes in one MB.
pub const BYTES_PER_MB: u64 = 1024 * 1024;

/// Status of the monitor as reported to observers.
#[derive(Debug, Clone)]
pub struct MemoryStatus {
    /// Usage in MB.
    pub current_mb: u64,
    /// Release threshold in MB.
    pub threshold_mb: u64,
    /// Last classified pressure level.
    pub pressure: MemoryPressure,
    /// Whole seconds since the last release (or since the monitor started).
    pub time_since_last_gc_secs: u64,
    /// Whether the monitor is running.
    pub is_monitoring: bool,
}

/// What one release attempt achieved.
#[derive(Debug, Clone, Copy, PartialEq, Eq, Structural)]
pub struct ReleaseResult {
    /// MB by which usage fell during the release.
    pub memory_freed_mb: u64,
    /// Cache entries removed.
    pub cache_entries_cleared: u64,
    /// Whether the allocator purge ran to completion.
    pub gc_executed: bool,
    /// Wall-clock time of the release, in ms since the Unix epoch.
    pub timestamp_ms: i64,
}

/// Running state of the monitor.
#[derive(Debug, Clone, Copy, PartialEq, Eq, Structural)]
pub struct MemoryMonitorState {
    /// Last observed usage in MB.
    pub current_usage_mb: u64,
    /// Highest observed usage in MB.
    pub peak_usage_mb: u64,
    /// Level of the last observed usage.
    pub pressure_level: MemoryPressure,
    /// Monotonic time of the last release, in ms.
    pub last_release_time: Option<u64>,
    /// Releases performed (saturating).
    pub release_count: u64,
    /// MB freed over all releases (saturating).
    pub total_freed_mb: u64,
}

/// The exact mean of the retained usage samples: `total_mb / samples`, or
/// zero when there are none.
#[derive(Debug, Clone, Copy, PartialEq, Eq, Structural)]
pub struct UsageAverage {
    /// Sum of the samples, in MB.
    pub total_mb: u128,
    /// Number of samples.
    pub samples: u64,
}

/// Aggregate report of the monitor.
#[derive(Debug, Clone, Copy, PartialEq, Eq, Structural)]
pub struct MemoryUsageReport {
    /// Wall-clock time of the report, in ms since the Unix epoch.
    pub timestamp_ms: i64,
    pub current_usage_mb: u64,
    pub peak_usage_mb: u64,
    /// Mean of the retained samples.
    pub average_usage: UsageAverage,
    pub pressure_level: MemoryPressure,
    pub total_releases: u64,
    pub total_freed_mb: u64,
    /// Whole seconds since the monitor was created.
    pub uptime_seconds: u64,
    pub performance_stats: PerformanceStats,
}

/// How the allocator purge step of a release ended.
#[derive(Debug, Clone, Copy, PartialEq, Eq, Structural)]
pub enum PurgeOutcome {
    /// The allocator is not available; no purge was attempted.
    Skipped,
    /// The purge completed.
    Completed,
    /// The purge reported an error.
    Failed,
    /// The purge did not finish in time.
    TimedOut,
}

/// What the steps of a release observed, in order: usage before, the cache
/// cleanup, the purge, usage after, and the wall-clock time.
#[derive(Debug)]
pub struct ReleaseObservations {
    pub usage_before: Result<u64, MemoryError>,
    pub cache_cleanup: Result<u64, MemoryError>,
    pub purge: PurgeOutcome,
    pub usage_after: Result<u64, MemoryError>,
    pub timestamp_ms: i64,
}

/// Everything a manager holds, as plain values.
pub struct ManagerView {
    pub config: MemoryConfig,
    /// Monotonic time of the last release, or of creation before any, in ms.
    pub last_gc_ms: u64,
    pub pressure: MemoryPressure,
    pub gc_failures: u32,
    pub state: MemoryMonitorState,
    pub stats: PerformanceStats,
    pub start_ms: u64,
    pub history: Seq<HistorySample>,
    pub recent_usage: Seq<u64>,
}

/// Milliseconds from `since` to `now`; zero if `now` is earlier.
pub open spec fn elapsed_ms(since: u64, now: u64) -> u64 {
    if now >= since {
        (now - since) as u64
    } else {
        0
    }
}

/// MB by which usage fell from `before` to `after`; never negative.
pub open spec fn freed(before: u64, after: u64) -> u64 {
    if before > after {
        (before - after) as u64
    } else {
        0
    }
}

/// `s` with `x` appended, keeping only the newest `RECENT_USAGE_CAPACITY`.
pub open spec fn bounded_push(s: Seq<u64>, x: u64) -> Seq<u64> {
    if s.len() + 1 > RECENT_USAGE_CAPACITY {
        s.push(x).drop_first()
    } else {
        s.push(x)
    }
}

/// The monitor's state after observing usage `current_mb`.
pub open spec fn observed(v: ManagerView, current_mb: u64) -> ManagerView {
    let level = pressure_of(current_mb as int, v.config.threshold_mb as int);
    ManagerView {
        pressure: level,
        state: MemoryMonitorState {
            current_usage_mb: current_mb,
            pressure_level: level,
            peak_usage_mb: if current_mb > v.state.peak_usage_mb {
                current_mb
            } else {
                v.state.peak_usage_mb
            },
            ..v.state
        },
        ..v
    }
}

/// Whether a release is due: usage above the threshold, and at least the
/// cooldown since the last release.
pub open spec fn release_due(v: ManagerView, current_mb: u64, now_ms: u64) -> bool {
    current_mb > v.config.threshold_mb && elapsed_ms(v.last_gc_ms, now_ms)
        >= v.config.gc_cooldown_secs * 1000
}

/// The manager's state after a query that returned `result`.
pub open spec fn after_query(
    v: ManagerView,
    result: Result<u64, MemoryError>,
    duration_ms: u64,
    now_ms: u64,
) -> ManagerView {
    let stats = query_recorded(v.stats, duration_ms, result is Ok);
    match result {
        Ok(mb) => ManagerView {
            stats,
            history: recorded(v.history, now_ms as int, mb as int),
            recent_usage: bounded_push(v.recent_usage, mb),
            ..v
        },
        Err(_) => ManagerView { stats, ..v },
    }
}

/// Usage before a release: the observed figure, or zero if it failed.
pub open spec fn usage_before_of(o: ReleaseObservations) -> u64 {
    match o.usage_before {
        Ok(mb) => mb,
        Err(_) => 0,
    }
}

/// Usage after a release: the observed figure, or the figure before if it
/// failed.
pub open spec fn usage_after_of(o: ReleaseObservations) -> u64 {
    match o.usage_after {
        Ok(mb) => mb,
        Err(_) => usage_before_of(o),
    }
}

/// The result of a release with observations `o`.
pub open spec fn release_result_of(o: ReleaseObservations) -> ReleaseResult {
    ReleaseResult {
        memory_freed_mb: freed(usage_before_of(o), usage_after_of(o)),
        cache_entries_cleared: match o.cache_cleanup {
            Ok(n) => n,
            Err(_) => 0,
        },
        gc_executed: o.purge == PurgeOutcome::Completed,
        timestamp_ms: o.timestamp_ms,
    }
}

/// The manager's state after a release with observations `o` at `now_ms`.
pub open spec fn released(v: ManagerView, o: ReleaseObservations, now_ms: u64) -> ManagerView {
    let gc_failures = match o.purge {
        PurgeOutcome::Completed => 0,
        PurgeOutcome::Skipped => v.gc_failures,
        _ => v.gc_failures.saturating_add(1),
    };
    let w = observed(ManagerView { gc_failures, ..v }, usage_after_of(o));
    ManagerView {
        last_gc_ms: now_ms,
        state: MemoryMonitorState {
            last_release_time: Some(now_ms),
            release_count: w.state.release_count.saturating_add(1),
            total_freed_mb: w.state.total_freed_mb.saturating_add(
                release_result_of(o).memory_freed_mb,
            ),
            ..w.state
        },
        ..w
    }
}

/// The state of a manager created with `config` at `now_ms`.
pub open spec fn initial(config: MemoryConfig, now_ms: u64) -> ManagerView {
    ManagerView {
        config,
        last_gc_ms: now_ms,
        pressure: MemoryPressure::Low,
        gc_failures: 0,
        state: MemoryMonitorState {
            current_usage_mb: 0,
            peak_usage_mb: 0,
            pressure_level: MemoryPressure::Low,
            last_release_time: None,
            release_count: 0,
            total_freed_mb: 0,
        },
        stats: PerformanceStats {
            monitoring_cycles: 0,
            total_monitoring_time_ms: 0,
            max_monitoring_time_ms: 0,
            memory_query_success: 0,
            memory_query_failures: 0,
            total_memory_query_time_ms: 0,
            interval_adjustments: 0,
            current_dynamic_interval: INITIAL_DYNAMIC_INTERVAL,
        },
        start_ms: now_ms,
        history: Seq::empty(),
        recent_usage: Seq::empty(),
    }
}

/// Usage in MB from an allocator reading: present only when the reading
/// succeeded and amounts to at least one MB.
pub open spec fn allocator_usage_of(r: Result<u64, JemallocError>) -> Option<u64> {
    match r {
        Ok(bytes) => if bytes / BYTES_PER_MB > 0 {
            Some((bytes / BYTES_PER_MB) as u64)
        } else {
            None
        },
        Err(_) => None,
    }
}

/// Turns an allocator reading into usage in MB (see `allocator_usage_of`).
pub fn usage_from_allocator(r: Result<u64, JemallocError>) -> (u: Option<u64>)
    ensures
        u == allocator_usage_of(r),
{
    match r {
        Ok(bytes) => {
            let mb = bytes / BYTES_PER_MB;
            if mb > 0 {
                Some(mb)
            } else {
                None
            }
        },
        Err(_) => None,
    }
}

/// Reads the allocator's count of allocated bytes and turns it into usage in
/// MB; none when the reading fails or is under one MB.
pub fn allocator_usage_mb() -> (u: Option<u64>)
    ensures
        u is Some ==> u->Some_0 > 0,
{
    usage_from_allocator(JemallocInterface::get_allocated_bytes())
}

/// Turns the resident size of process `pid`, if it was found, into usage in
/// MB; a process that was not found is a collection failure.
pub fn usage_from_process(pid: u32, resident_bytes: Option<u64>) -> (r: Result<u64, MemoryError>)
    ensures
        resident_bytes is Some <==> r is Ok,
        resident_bytes is Some ==> r->Ok_0 == resident_bytes->Some_0 / BYTES_PER_MB,
        r is Err ==> r->Err_0 is MetricsCollectionFailed,
{
    match resident_bytes {
        Some(bytes) => Ok(bytes / BYTES_PER_MB),
        None => {
            let id = pid.to_string();
            Err(
                MemoryError::MetricsCollectionFailed(
                    String::from_str("Unable to find process with PID ").concat(id.as_str()),
                ),
            )
        },
    }
}

/// Outcome of the cache cleanup step: a cleanup that did not complete in
/// time fails; otherwise the entries removed are the drop in the entry count.
pub fn cache_cleanup_outcome(entries_before: u64, completed: bool, entries_after: u64) -> (r:
    Result<u64, MemoryError>)
    ensures
        r is Ok <==> completed,
        completed ==> r->Ok_0 == freed(entries_before, entries_after),
        !completed ==> (r->Err_0 is CacheCleanupFailed && r->Err_0->CacheCleanupFailed_0@
            == "Memory cache cleanup timeout"@),
{
    if !completed {
        return Err(MemoryError::CacheCleanupFailed(String::from_str("Memory cache cleanup timeout")));
    }
    Ok(entries_before.saturating_sub(entries_after))
}

/// Maps the allocator's configuration check to the manager's: an allocator
/// that is not available is no error (a fallback is used); any other failure
/// is an invalid configuration carrying the allocator's message.
pub fn jemalloc_check_outcome(r: Result<(), JemallocError>) -> (m: Result<(), MemoryError>)
    ensures
        m is Ok <==> (r is Ok || r->Err_0 is NotAvailable),
        m is Err ==> (m->Err_0 is InvalidConfig && m->Err_0->InvalidConfig_0@ == jemalloc_error_text(
            r->Err_0,
        )),
{
    match r {
        Ok(()) => Ok(()),
        Err(JemallocError::NotAvailable) => Ok(()),
        Err(e) => Err(MemoryError::InvalidConfig(e.message())),
    }
}

/// How much a finished release achieved.
#[derive(Debug, Clone, Copy, PartialEq, Eq, Structural)]
pub enum ReleaseEffect {
    /// Nothing was freed, no cache entry removed, no purge completed.
    NoEffect,
    /// Something happened, but with over 100 MB in use less than a tenth of
    /// it was freed.
    Weak,
    /// Any other outcome.
    Effective,
}

/// The effect of a release `r` that started from `usage_before` MB.
pub open spec fn effect_of(r: ReleaseResult, usage_before: u64) -> ReleaseEffect {
    if r.memory_freed_mb == 0 && r.cache_entries_cleared == 0 && !r.gc_executed {
        ReleaseEffect::NoEffect
    } else if r.memory_freed_mb < usage_before / 10 && usage_before > 100 {
        ReleaseEffect::Weak
    } else {
        ReleaseEffect::Effective
    }
}

/// Computes `effect_of(*result, usage_before)`.
pub fn assess_release(result: &ReleaseResult, usage_before: u64) -> (e: ReleaseEffect)
    ensures
        e == effect_of(*result, usage_before),
{
    if result.memory_freed_mb == 0 && result.cache_entries_cleared == 0 && !result.gc_executed {
        ReleaseEffect::NoEffect
    } else if result.memory_freed_mb < usage_before / 10 && usage_before > 100 {
        ReleaseEffect::Weak
    } else {
        ReleaseEffect::Effective
    }
}

/// The MB by which usage fell from `before` to `after`.
pub fn freed_mb(before: u64, after: u64) -> (r: u64)
    ensures
        r == freed(before, after),
{
    before.saturating_sub(after)
}

/// Freed memory is `max(0, before - after)`: never negative and never more
/// than the usage before.
pub proof fn lemma_freed_bounds(before: u64, after: u64)
    ensures
        freed(before, after) as int == if before >= after {
            before - after
        } else {
            0
        },
        0 <= freed(before, after) <= before,
{
}

/// The interval the monitor uses next: the adaptive interval for the last
/// pressure level and `failures`, unless it differs from `current` and the
/// last change was under a minute before `now_ms`, in which case `current`.
pub open spec fn next_interval_of(
    v: ManagerView,
    current: u64,
    failures: u32,
    last_adjustment_ms: u64,
    now_ms: u64,
) -> u64 {
    let fresh = interval_for(v.config.check_interval_secs as int, v.pressure, failures as int);
    if elapsed_ms(last_adjustment_ms, now_ms) < ADJUSTMENT_SPACING_MS && fresh != current {
        current
    } else {
        fresh as u64
    }
}

/// `v` with its performance counters replaced by `stats`.
pub open spec fn with_stats(v: ManagerView, stats: PerformanceStats) -> ManagerView {
    ManagerView { stats, ..v }
}

/// A release starts a cooldown: right after it no release is due at any
/// usage, nor while less than the cooldown has passed; once the cooldown has
/// passed, usage above the threshold makes one due again.
pub proof fn lemma_release_gate(
    v: ManagerView,
    o: ReleaseObservations,
    now_ms: u64,
    usage_mb: u64,
    later_ms: u64,
)
    requires
        v.config.is_valid(),
    ensures
        !release_due(released(v, o, now_ms), usage_mb, now_ms),
        elapsed_ms(now_ms, later_ms) < v.config.gc_cooldown_secs * 1000 ==> !release_due(
            released(v, o, now_ms),
            usage_mb,
            later_ms,
        ),
        (elapsed_ms(now_ms, later_ms) >= v.config.gc_cooldown_secs * 1000 && usage_mb
            > v.config.threshold_mb) ==> release_due(released(v, o, now_ms), usage_mb, later_ms),
{
}

/// The background memory manager's state and decisions.
pub struct MemoryManager {
    config: MemoryConfig,
    last_gc_ms: u64,
    memory_pressure: MemoryPressure,
    gc_failure_count: u32,
    monitor_state: MemoryMonitorState,
    performance_stats: PerformanceStats,
    start_ms: u64,
    memory_history: HistoryTracker,
    system_memory_history: Vec<u64>,
}

impl View for MemoryManager {
    type V = ManagerView;

    closed spec fn view(&self) -> ManagerView {
        ManagerView {
            config: self.config,
            last_gc_ms: self.last_gc_ms,
            pressure: self.memory_pressure,
            gc_failures: self.gc_failure_count,
            state: self.monitor_state,
            stats: self.performance_stats,
            start_ms: self.start_ms,
            history: self.memory_history@,
            recent_usage: self.system_memory_history@,
        }
    }
}

impl MemoryManager {
    /// The configuration is valid and both histories are within bounds.
    pub open spec fn wf(&self) -> bool {
        &&& self@.config.is_valid()
        &&& self@.history.len() <= crate::history::HISTORY_CAPACITY
        &&& self@.recent_usage.len() <= RECENT_USAGE_CAPACITY
    }

    /// A manager created at monotonic time `now_ms`; the cooldown runs from
    /// creation.
    pub fn new(config: MemoryConfig, now_ms: u64) -> (r: Self)
        requires
            config.is_valid(),
        ensures
            r.wf(),
            r@ == initial(config, now_ms),
    {
        let r = MemoryManager {
            config,
            last_gc_ms: now_ms,
            memory_pressure: MemoryPressure::Low,
            gc_failure_count: 0,
            monitor_state: MemoryMonitorState {
                current_usage_mb: 0,
                peak_usage_mb: 0,
                pressure_level: MemoryPressure::Low,
                last_release_time: None,
                release_count: 0,
                total_freed_mb: 0,
            },
            performance_stats: PerformanceStats::default(),
            start_ms: now_ms,
            memory_history: HistoryTracker::new(),
            system_memory_history: Vec::new(),
        };
        assert(r@.history =~= Seq::<HistorySample>::empty());
        assert(r@.recent_usage =~= Seq::<u64>::empty());
        r
    }

    /// The configuration in use.
    pub fn config(&self) -> (r: MemoryConfig)
        ensures
            r == self@.config,
    {
        self.config
    }

    /// Classifies `current_mb` against `threshold_mb`.
    pub fn calculate_pressure_level(&self, current_mb: u64, threshold_mb: u64) -> (r: MemoryPressure)
        requires
            threshold_mb > 0,
        ensures
            r == pressure_of(current_mb as int, threshold_mb as int),
    {
        classify(current_mb, threshold_mb)
    }

    /// The last classified pressure level.
    pub fn get_memory_pressure(&self) -> (r: MemoryPressure)
        ensures
            r == self@.pressure,
    {
        self.memory_pressure
    }

    /// Consecutive allocator purges that failed.
    pub fn gc_failure_count(&self) -> (r: u32)
        ensures
            r == self@.gc_failures,
    {
        self.gc_failure_count
    }

    /// Takes `current_mb` as the current usage: classifies it, and updates the
    /// peak.
    pub fn update_memory_pressure(&mut self, current_mb: u64)
        requires
            old(self).wf(),
        ensures
            final(self).wf(),
            final(self)@ == observed(old(self)@, current_mb),
    {
        let level = classify(current_mb, self.config.threshold_mb);
        self.memory_pressure = level;
        self.monitor_state.current_usage_mb = current_mb;
        self.monitor_state.pressure_level = level;
        if current_mb > self.monitor_state.peak_usage_mb {
            self.monitor_state.peak_usage_mb = current_mb;
        }
    }

    /// Whether a release is due at `now_ms` for usage `current_mb`.
    pub fn should_trigger_release(&self, current_mb: u64, now_ms: u64) -> (r: bool)
        requires
            self.wf(),
        ensures
            r == release_due(self@, current_mb, now_ms),
    {
        if current_mb <= self.config.threshold_mb {
            return false;
        }
        let elapsed = now_ms.saturating_sub(self.last_gc_ms);
        elapsed as u128 >= self.config.gc_cooldown_secs as u128 * 1000
    }

    /// The status for a usage query that returned `usage`; a failed query
    /// is passed on.
    pub fn get_memory_status(&self, usage: Result<u64, MemoryError>, now_ms: u64) -> (r: Result<
        MemoryStatus,
        MemoryError,
    >)
        ensures
            r is Ok <==> usage is Ok,
            usage is Err ==> r->Err_0 == usage->Err_0,
            usage is Ok ==> ({
                let s = r->Ok_0;
                &&& s.current_mb == usage->Ok_0
                &&& s.threshold_mb == self@.config.threshold_mb
                &&& s.pressure == self@.pressure
                &&& s.time_since_last_gc_secs == elapsed_ms(self@.last_gc_ms, now_ms) / 1000
                &&& s.is_monitoring
            }),
    {
        match usage {
            Ok(current_mb) => Ok(
                MemoryStatus {
                    current_mb,
                    threshold_mb: self.config.threshold_mb,
                    pressure: self.memory_pressure,
                    time_since_last_gc_secs: now_ms.saturating_sub(self.last_gc_ms) / 1000,
                    is_monitoring: true,
                },
            ),
            Err(e) => Err(e),
        }
    }

    /// A copy of the running state.
    pub fn get_monitor_state(&self) -> (r: MemoryMonitorState)
        ensures
            r == self@.state,
    {
        self.monitor_state
    }

    /// Folds a usage query that took `duration_ms` and returned `result` into
    /// the statistics, and a successful one into both histories; returns the
    /// result.
    pub fn record_memory_query(
        &mut self,
        result: Result<u64, MemoryError>,
        duration_ms: u64,
        now_ms: u64,
    ) -> (r: Result<u64, MemoryError>)
        requires
            old(self).wf(),
        ensures
            final(self).wf(),
            final(self)@ == after_query(old(self)@, result, duration_ms, now_ms),
            r == result,
    {
        self.performance_stats.record_query(duration_ms, result.is_ok());
        if let Ok(mb) = &result {
            self.memory_history.record(now_ms, *mb);
            self.system_memory_history.push(*mb);
            if self.system_memory_history.len() > RECENT_USAGE_CAPACITY {
                self.system_memory_history.remove(0);
            }
        }
        result
    }

    /// The usage figures kept for charting, oldest first.
    pub fn get_system_memory_history(&self) -> (r: Vec<u64>)
        ensures
            r@ == self@.recent_usage,
    {
        self.system_memory_history.clone()
    }

    /// A copy of the performance counters.
    pub fn get_performance_stats(&self) -> (r: PerformanceStats)
        ensures
            r == self@.stats,
    {
        self.performance_stats
    }

    /// The exact mean of the retained usage samples.
    pub fn calculate_average_memory_usage(&self) -> (r: UsageAverage)
        requires
            self.wf(),
        ensures
            r.total_mb == usage_total(self@.history),
            r.samples == self@.history.len(),
    {
        UsageAverage {
            total_mb: self.memory_history.usage_total(),
            samples: self.memory_history.len() as u64,
        }
    }

    /// The usage trend over the most recent samples.
    pub fn get_memory_trend(&self) -> (r: Option<MemoryTrend>)
        ensures
            r == trend_of(self@.history),
    {
        self.memory_history.trend()
    }

    /// The aggregate report at monotonic time `now_ms` and wall-clock time
    /// `timestamp_ms`.
    pub fn generate_memory_report(&self, now_ms: u64, timestamp_ms: i64) -> (r: MemoryUsageReport)
        requires
            self.wf(),
        ensures
            r.timestamp_ms == timestamp_ms,
            r.current_usage_mb == self@.state.current_usage_mb,
            r.peak_usage_mb == self@.state.peak_usage_mb,
            r.average_usage.total_mb == usage_total(self@.history),
            r.average_usage.samples == self@.history.len(),
            r.pressure_level == self@.state.pressure_level,
            r.total_releases == self@.state.release_count,
            r.total_freed_mb == self@.state.total_freed_mb,
            r.uptime_seconds == elapsed_ms(self@.start_ms, now_ms) / 1000,
            r.performance_stats == self@.stats,
    {
        let state = self.get_monitor_state();
        MemoryUsageReport {
            timestamp_ms,
            current_usage_mb: state.current_usage_mb,
            peak_usage_mb: state.peak_usage_mb,
            average_usage: self.calculate_average_memory_usage(),
            pressure_level: state.pressure_level,
            total_releases: state.release_count,
            total_freed_mb: state.total_freed_mb,
            uptime_seconds: now_ms.saturating_sub(self.start_ms) / 1000,
            performance_stats: self.performance_stats,
        }
    }

    /// Checks the allocator's configuration (see `jemalloc_check_outcome`).
    pub fn validate_jemalloc_config(&self) -> (r: Result<(), MemoryError>)
        ensures
            r is Err ==> r->Err_0 is InvalidConfig,
    {
        jemalloc_check_outcome(JemallocInterface::validate_config())
    }

    /// Counts one failed allocator purge.
    fn handle_gc_failure(&mut self)
        ensures
            final(self).gc_failure_count == old(self).gc_failure_count.saturating_add(1),
            final(self).config == old(self).config,
            final(self).last_gc_ms == old(self).last_gc_ms,
            final(self).memory_pressure == old(self).memory_pressure,
            final(self).monitor_state == old(self).monitor_state,
            final(self).performance_stats == old(self).performance_stats,
            final(self).start_ms == old(self).start_ms,
            final(self).memory_history == old(self).memory_history,
            final(self).system_memory_history == old(self).system_memory_history,
    {
        self.gc_failure_count = self.gc_failure_count.saturating_add(1);
    }

    /// Completes a release from what its steps observed: a failed reading
    /// before counts as zero, a failed reading after as no change, a failed
    /// cache cleanup as no entries removed. A completed purge clears the
    /// purge failure count and a failed or timed-out one raises it. The usage
    /// after is classified, and the release is recorded at `now_ms`, which
    /// starts a new cooldown.
    pub fn trigger_global_release(&mut self, observations: ReleaseObservations, now_ms: u64) -> (r:
        ReleaseResult)
        requires
            old(self).wf(),
        ensures
            final(self).wf(),
            r == release_result_of(observations),
            final(self)@ == released(old(self)@, observations, now_ms),
    {
        let before = match &observations.usage_before {
            Ok(mb) => *mb,
            Err(_) => 0,
        };
        let cleared = match &observations.cache_cleanup {
            Ok(n) => *n,
            Err(_) => 0,
        };
        let gc_executed = match observations.purge {
            PurgeOutcome::Completed => {
                self.gc_failure_count = 0;
                true
            },
            PurgeOutcome::Skipped => false,
            _ => {
                self.handle_gc_failure();
                false
            },
        };
        let after = match &observations.usage_after {
            Ok(mb) => *mb,
            Err(_) => before,
        };
        let result = ReleaseResult {
            memory_freed_mb: freed_mb(before, after),
            cache_entries_cleared: cleared,
            gc_executed,
            timestamp_ms: observations.timestamp_ms,
        };
        self.update_memory_pressure(after);
        self.last_gc_ms = now_ms;
        self.monitor_state.last_release_time = Some(now_ms);
        self.monitor_state.release_count = self.monitor_state.release_count.saturating_add(1);
        self.monitor_state.total_freed_mb = self.monitor_state.total_freed_mb.saturating_add(
            result.memory_freed_mb,
        );
        result
    }

    /// Takes the usage a monitoring check observed: a failed query is passed
    /// on; otherwise the usage is classified and the answer is whether a
    /// release is due at `now_ms`.
    pub fn check_release_needed(&mut self, usage: Result<u64, MemoryError>, now_ms: u64) -> (r:
        Result<bool, MemoryError>)
        requires
            old(self).wf(),
        ensures
            final(self).wf(),
            r is Ok <==> usage is Ok,
            usage is Err ==> final(self)@ == old(self)@,
            usage is Ok ==> final(self)@ == observed(old(self)@, usage->Ok_0),
            usage is Ok ==> r->Ok_0 == release_due(old(self)@, usage->Ok_0, now_ms),
    {
        match usage {
            Ok(current_mb) => {
                self.update_memory_pressure(current_mb);
                Ok(self.should_trigger_release(current_mb, now_ms))
            },
            Err(e) => Err(e),
        }
    }

    /// The polling interval to use next (see `next_interval_of`).
    pub fn calculate_adaptive_interval(
        &self,
        current_interval: u64,
        consecutive_failures: u32,
        last_adjustment_ms: u64,
        now_ms: u64,
    ) -> (r: u64)
        ensures
            r == next_interval_of(
                self@,
                current_interval,
                consecutive_failures,
                last_adjustment_ms,
                now_ms,
            ),
    {
        let fresh = adaptive_interval(
            self.config.check_interval_secs,
            self.memory_pressure,
            consecutive_failures,
        );
        if now_ms.saturating_sub(last_adjustment_ms) < ADJUSTMENT_SPACING_MS && fresh
            != current_interval {
            return current_interval;
        }
        fresh
    }

    /// Counts the start of a monitoring cycle.
    pub fn update_monitoring_cycle_stats(&mut self)
        requires
            old(self).wf(),
        ensures
            final(self).wf(),
            final(self)@ == with_stats(old(self)@, cycle_started(old(self)@.stats)),
    {
        self.performance_stats.record_cycle_start();
    }

    /// Folds the duration of a finished monitoring cycle into the counters.
    pub fn update_monitoring_stats(&mut self, duration_ms: u64)
        requires
            old(self).wf(),
        ensures
            final(self).wf(),
            final(self)@ == with_stats(old(self)@, cycle_timed(old(self)@.stats, duration_ms)),
    {
        self.performance_stats.record_cycle_time(duration_ms);
    }

    /// Records that the polling interval changed to `interval_secs`.
    pub fn record_interval_change(&mut self, interval_secs: u64)
        requires
            old(self).wf(),
        ensures
            final(self).wf(),
            final(self)@ == with_stats(
                old(self)@,
                interval_changed(old(self)@.stats, interval_secs),
            ),
    {
        self.performance_stats.record_interval_change(interval_secs);
    }
}

/// How one monitoring check ended.
#[derive(Debug, Clone, Copy, PartialEq, Eq, Structural)]
pub enum CycleOutcome {
    /// Usage was read and a release ran.
    Released,
    /// Usage was read and no release was due.
    Idle,
    /// The check failed.
    Failed,
    /// The check did not finish in time.
    TimedOut,
}

/// The control state of the monitoring loop between cycles.
#[derive(Debug, Clone, Copy, PartialEq, Eq, Structural)]
pub struct MonitorLoop {
    /// Checks that failed in a row.
    pub consecutive_failures: u32,
    /// Monotonic time of the last successful check, in ms.
    pub last_successful_check_ms: u64,
    /// Interval in use, in seconds.
    pub current_interval_secs: u64,
    /// Monotonic time of the last interval change, in ms.
    pub last_interval_adjustment_ms: u64,
}

impl MonitorLoop {
    /// The loop's state when it starts at `now_ms`: the configured interval,
    /// no failures.
    pub fn new(manager: &MemoryManager, now_ms: u64) -> (r: Self)
        ensures
            r == (MonitorLoop {
                consecutive_failures: 0,
                last_successful_check_ms: now_ms,
                current_interval_secs: manager@.config.check_interval_secs,
                last_interval_adjustment_ms: now_ms,
            }),
    {
        MonitorLoop {
            consecutive_failures: 0,
            last_successful_check_ms: now_ms,
            current_interval_secs: manager.config().check_interval_secs,
            last_interval_adjustment_ms: now_ms,
        }
    }

    /// Chooses the interval to sleep before the next check; a change is
    /// recorded in the manager's counters and restarts the spacing between
    /// changes.
    pub fn next_interval(&mut self, manager: &mut MemoryManager, now_ms: u64) -> (r: u64)
        requires
            old(manager).wf(),
        ensures
            final(manager).wf(),
            r == next_interval_of(
                old(manager)@,
                old(self).current_interval_secs,
                old(self).consecutive_failures,
                old(self).last_interval_adjustment_ms,
                now_ms,
            ),
            final(self).current_interval_secs == r,
            final(self).consecutive_failures == old(self).consecutive_failures,
            final(self).last_successful_check_ms == old(self).last_successful_check_ms,
            r != old(self).current_interval_secs ==> final(self).last_interval_adjustment_ms
                == now_ms && final(manager)@ == with_stats(
                old(manager)@,
                interval_changed(old(manager)@.stats, r),
            ),
            r == old(self).current_interval_secs ==> final(self).last_interval_adjustment_ms
                == old(self).last_interval_adjustment_ms && final(manager)@ == old(manager)@,
    {
        let adjusted = manager.calculate_adaptive_interval(
            self.current_interval_secs,
            self.consecutive_failures,
            self.last_interval_adjustment_ms,
            now_ms,
        );
        if adjusted != self.current_interval_secs {
            self.current_interval_secs = adjusted;
            manager.record_interval_change(adjusted);
            self.last_interval_adjustment_ms = now_ms;
        }
        adjusted
    }

    /// Folds the outcome of a check that took `duration_ms` into the loop's
    /// state and the manager's counters. A success clears the failure run; a
    /// failure or timeout extends it and yields the alert to report.
    pub fn finish_cycle(
        &mut self,
        manager: &mut MemoryManager,
        outcome: CycleOutcome,
        duration_ms: u64,
        now_ms: u64,
    ) -> (r: Option<MonitoringAlert>)
        requires
            old(manager).wf(),
        ensures
            final(manager).wf(),
            final(manager)@ == with_stats(
                old(manager)@,
                cycle_timed(old(manager)@.stats, duration_ms),
            ),
            final(self).current_interval_secs == old(self).current_interval_secs,
            final(self).last_interval_adjustment_ms == old(self).last_interval_adjustment_ms,
            (outcome is Released || outcome is Idle) ==> (final(self).consecutive_failures == 0
                && final(self).last_successful_check_ms == now_ms && r is None),
            (outcome is Failed || outcome is TimedOut) ==> ({
                &&& final(self).consecutive_failures == old(
                    self,
                ).consecutive_failures.saturating_add(1)
                &&& final(self).last_successful_check_ms == old(self).last_successful_check_ms
                &&& r == alert_of(
                    final(self).consecutive_failures,
                    old(self).last_successful_check_ms,
                    now_ms,
                )
            }),
    {
        manager.update_monitoring_stats(duration_ms);
        match outcome {
            CycleOutcome::Released | CycleOutcome::Idle => {
                self.consecutive_failures = 0;
                self.last_successful_check_ms = now_ms;
                None
            },
            CycleOutcome::Failed | CycleOutcome::TimedOut => {
                self.consecutive_failures = self.consecutive_failures.saturating_add(1);
                handle_monitoring_failure(
                    self.consecutive_failures,
                    self.last_successful_check_ms,
                    now_ms,
                )
            },
        }
    }
}

} // verus!
