use memory_monitor::{
    adaptive_interval, assess_release, cache_cleanup_outcome, default_check_interval, default_gc_cooldown,
    default_memory_threshold, failure_severity, freed_mb, handle_monitoring_failure,
    usage_from_process, CycleOutcome, FailureSeverity, HistoryTracker, MemoryConfig, MemoryError,
    MemoryManager, MemoryPressure, MonitorLoop, PerformanceStats, PurgeOutcome,
    ReleaseEffect, ReleaseObservations, ReleaseResult,
};

fn config(threshold_mb: u64, check_interval_secs: u64, gc_cooldown_secs: u64) -> MemoryConfig {
    MemoryConfig { threshold_mb, check_interval_secs, gc_cooldown_secs }
}

fn quiet_release(usage_before: u64, usage_after: u64, timestamp_ms: i64) -> ReleaseObservations {
    ReleaseObservations {
        usage_before: Ok(usage_before),
        cache_cleanup: Ok(0),
        purge: PurgeOutcome::Completed,
        usage_after: Ok(usage_after),
        timestamp_ms,
    }
}

#[test]
fn test_memory_manager_creation() {
    let manager = MemoryManager::new(config(500, 30, 30), 0);
    assert_eq!(manager.get_memory_pressure(), MemoryPressure::Low);
}

#[test]
fn test_memory_pressure_update() {
    let mut manager = MemoryManager::new(config(500, 30, 30), 0);
    manager.update_memory_pressure(450);
    assert_eq!(manager.get_memory_pressure(), MemoryPressure::High);

    let state = manager.get_monitor_state();
    assert_eq!(state.current_usage_mb, 450);
    assert_eq!(state.pressure_level, MemoryPressure::High);
    assert_eq!(state.peak_usage_mb, 450);
}

#[test]
fn test_enhanced_error_handling() {
    let mut manager = MemoryManager::new(config(500, 30, 30), 0);
    manager.update_memory_pressure(450);
    assert_eq!(manager.get_memory_pressure(), MemoryPressure::High);
    let state = manager.get_monitor_state();
    assert_eq!(state.current_usage_mb, 450);
    assert_eq!(state.pressure_level, MemoryPressure::High);
    assert_eq!(state.peak_usage_mb, 450);

    // The peak keeps the highest figure.
    manager.update_memory_pressure(100);
    let state = manager.get_monitor_state();
    assert_eq!(state.current_usage_mb, 100);
    assert_eq!(state.peak_usage_mb, 450);
    assert_eq!(state.pressure_level, MemoryPressure::Low);
}

#[test]
fn test_should_trigger_release() {
    let start = 10_000;
    let mut manager = MemoryManager::new(config(500, 30, 1), start);

    assert!(!manager.should_trigger_release(400, start));
    // Within the cooldown that starts at creation.
    assert!(!manager.should_trigger_release(600, start));
    // Two seconds later the cooldown has passed.
    assert!(manager.should_trigger_release(600, start + 2_000));

    let now = start + 2_000;
    manager.trigger_global_release(quiet_release(600, 600, 0), now);
    assert!(!manager.should_trigger_release(600, now));
}

#[test]
fn test_gc_cooldown_mechanism() {
    let mut manager = MemoryManager::new(config(100, 30, 1), 0);
    let mut now = 2_000;
    assert!(manager.should_trigger_release(200, now));

    manager.trigger_global_release(quiet_release(200, 200, 0), now);
    assert!(!manager.should_trigger_release(200, now));

    now += 500;
    assert!(!manager.should_trigger_release(200, now));

    now += 600;
    assert!(manager.should_trigger_release(200, now));
}

#[test]
fn release_gate_with_thirty_second_cooldown() {
    let mut manager = MemoryManager::new(config(500, 30, 30), 0);
    let now = 100_000;
    manager.trigger_global_release(quiet_release(900, 800, 0), now);
    for usage in [0u64, 499, 500, 501, 10_000, u64::MAX] {
        assert!(!manager.should_trigger_release(usage, now));
        assert!(!manager.should_trigger_release(usage, now + 29_999));
    }
    assert!(manager.should_trigger_release(501, now + 30_000));
    assert!(!manager.should_trigger_release(500, now + 30_000));
    assert!(manager.should_trigger_release(501, now + 45_000));
}

#[test]
fn test_trigger_global_release() {
    let mut manager = MemoryManager::new(config(500, 30, 1), 0);
    let observations = ReleaseObservations {
        usage_before: Ok(620),
        cache_cleanup: Ok(10),
        purge: PurgeOutcome::Completed,
        usage_after: Ok(580),
        timestamp_ms: 1_700_000_000_000,
    };
    let result = manager.trigger_global_release(observations, 2_000);
    assert_eq!(result.memory_freed_mb, 40);
    assert_eq!(result.cache_entries_cleared, 10);
    assert!(result.gc_executed);
    assert_eq!(result.timestamp_ms, 1_700_000_000_000);

    let state = manager.get_monitor_state();
    assert_eq!(state.release_count, 1);
    assert!(state.last_release_time.is_some());
    assert_eq!(state.last_release_time, Some(2_000));
    assert_eq!(state.total_freed_mb, 40);
    assert_eq!(state.current_usage_mb, 580);
    assert_eq!(state.pressure_level, MemoryPressure::Critical);
}

#[test]
fn test_gc_failure_handling() {
    let mut manager = MemoryManager::new(config(100, 30, 1), 0);
    let failed = ReleaseObservations {
        usage_before: Err(MemoryError::MetricsCollectionFailed("none".to_string())),
        cache_cleanup: Err(MemoryError::CacheCleanupFailed("slow".to_string())),
        purge: PurgeOutcome::Failed,
        usage_after: Ok(90),
        timestamp_ms: 5,
    };
    let result = manager.trigger_global_release(failed, 2_000);
    // The reading before failed, so it counts as zero: nothing was freed.
    assert_eq!(result.memory_freed_mb, 0);
    assert_eq!(result.cache_entries_cleared, 0);
    assert!(!result.gc_executed);
    assert_eq!(manager.gc_failure_count(), 1);

    let state = manager.get_monitor_state();
    assert_eq!(state.release_count, 1);
    assert!(state.last_release_time.is_some());

    let timed_out = ReleaseObservations {
        usage_before: Ok(150),
        cache_cleanup: Ok(3),
        purge: PurgeOutcome::TimedOut,
        usage_after: Err(MemoryError::MetricsCollectionFailed("none".to_string())),
        timestamp_ms: 6,
    };
    let result = manager.trigger_global_release(timed_out, 4_000);
    // The reading after failed, so usage is taken as unchanged.
    assert_eq!(result.memory_freed_mb, 0);
    assert_eq!(manager.gc_failure_count(), 2);

    let skipped = ReleaseObservations {
        usage_before: Ok(150),
        cache_cleanup: Ok(0),
        purge: PurgeOutcome::Skipped,
        usage_after: Ok(120),
        timestamp_ms: 7,
    };
    let result = manager.trigger_global_release(skipped, 6_000);
    assert_eq!(result.memory_freed_mb, 30);
    assert_eq!(manager.gc_failure_count(), 2);

    manager.trigger_global_release(quiet_release(120, 110, 8), 8_000);
    assert_eq!(manager.gc_failure_count(), 0);
    assert_eq!(manager.get_monitor_state().release_count, 4);
    assert_eq!(manager.get_monitor_state().total_freed_mb, 40);
}

#[test]
fn freed_memory_is_never_negative() {
    assert_eq!(freed_mb(300, 200), 100);
    assert_eq!(freed_mb(200, 300), 0);
    assert_eq!(freed_mb(0, 0), 0);
    assert_eq!(freed_mb(u64::MAX, 0), u64::MAX);
    for (before, after) in [(5u64, 9u64), (9, 5), (7, 7)] {
        let f = freed_mb(before, after);
        assert!(f <= before);
        assert_eq!(f, before.saturating_sub(after));
    }
}

#[test]
fn end_to_end_release_and_cooldown() {
    let mut manager = MemoryManager::new(config(100, 30, 1), 0);
    let first_at = 2_000;
    let due = manager.check_release_needed(Ok(200), first_at).unwrap();
    assert!(due);
    manager.trigger_global_release(quiet_release(200, 200, 0), first_at);
    assert_eq!(manager.get_monitor_state().release_count, 1);

    let second_at = first_at + 500;
    let due = manager.check_release_needed(Ok(200), second_at).unwrap();
    assert!(!due);
    assert_eq!(manager.get_monitor_state().release_count, 1);
}

#[test]
fn check_passes_on_a_failed_query() {
    let mut manager = MemoryManager::new(config(100, 30, 1), 0);
    let r = manager.check_release_needed(
        Err(MemoryError::MetricsCollectionFailed("x".to_string())),
        5_000,
    );
    assert!(matches!(r, Err(MemoryError::MetricsCollectionFailed(_))));
    assert_eq!(manager.get_monitor_state().current_usage_mb, 0);
}

#[test]
fn test_performance_optimization_features() {
    let mut manager = MemoryManager::new(config(500, 30, 30), 0);

    let stats = manager.get_performance_stats();
    assert_eq!(stats.monitoring_cycles, 0);
    assert_eq!(stats.memory_query_success, 0);
    assert_eq!(stats.memory_query_failures, 0);
    assert_eq!(stats.current_dynamic_interval, 30);

    manager.record_memory_query(Ok(100), 1, 1_000).unwrap();
    manager.record_memory_query(Ok(150), 1, 2_000).unwrap();
    manager.record_memory_query(Ok(200), 1, 3_000).unwrap();

    let average = manager.calculate_average_memory_usage();
    assert_eq!(average.total_mb, 450);
    assert_eq!(average.samples, 3);
    let avg_usage = average.total_mb as f64 / average.samples as f64;
    assert!((avg_usage - 150.0).abs() < 1.0);

    let report = manager.generate_memory_report(13_500, 42);
    assert_eq!(report.average_usage, average);
    assert_eq!(report.timestamp_ms, 42);
    assert_eq!(report.uptime_seconds, 13);
    assert_eq!(report.current_usage_mb, 0);
    assert_eq!(manager.get_system_memory_history(), vec![100, 150, 200]);
}

#[test]
fn test_performance_reporting() {
    let mut manager = MemoryManager::new(config(500, 30, 30), 0);
    manager.record_memory_query(Ok(10), 50, 1).unwrap();
    manager.record_memory_query(Ok(10), 75, 2).unwrap();
    let failed = manager.record_memory_query(
        Err(MemoryError::MetricsCollectionFailed("x".to_string())),
        100,
        3,
    );
    assert!(failed.is_err());

    let stats = manager.get_performance_stats();
    assert_eq!(stats.memory_query_success, 2);
    assert_eq!(stats.memory_query_failures, 1);
    assert_eq!(stats.total_memory_query_time_ms, 225);
    let avg = stats.total_memory_query_time_ms as f64
        / (stats.memory_query_success + stats.memory_query_failures) as f64;
    assert!(avg > 0.0);
    assert_eq!(manager.calculate_average_memory_usage().samples, 2);
}

#[test]
fn test_adaptive_interval_calculation() {
    let mut manager = MemoryManager::new(config(500, 30, 30), 0);
    let last_adjustment = 0;
    let now = 0;

    manager.update_memory_pressure(200);
    let interval_low = manager.calculate_adaptive_interval(30, 0, last_adjustment, now);
    manager.update_memory_pressure(450);
    let interval_high = manager.calculate_adaptive_interval(30, 0, last_adjustment, now);
    manager.update_memory_pressure(600);
    let interval_critical = manager.calculate_adaptive_interval(30, 0, last_adjustment, now);

    assert!(interval_critical <= interval_high);
    assert!(interval_high <= interval_low);

    let interval_with_failures = manager.calculate_adaptive_interval(30, 5, last_adjustment, now);
    assert!(interval_with_failures >= 30);

    // Once a minute has passed, the fresh interval is taken.
    let later = 60_000;
    assert_eq!(manager.calculate_adaptive_interval(30, 0, 0, later), 15);
    manager.update_memory_pressure(200);
    assert_eq!(manager.calculate_adaptive_interval(30, 0, 0, later), 45);
    assert_eq!(manager.calculate_adaptive_interval(30, 4, 0, later), 67);
    assert_eq!(manager.calculate_adaptive_interval(30, 6, 0, later), 90);
}

#[test]
fn adaptive_interval_values_and_bounds() {
    let levels = [
        MemoryPressure::Low,
        MemoryPressure::Medium,
        MemoryPressure::High,
        MemoryPressure::Critical,
    ];
    assert_eq!(adaptive_interval(30, MemoryPressure::Critical, 0), 15);
    assert_eq!(adaptive_interval(30, MemoryPressure::High, 0), 22);
    assert_eq!(adaptive_interval(30, MemoryPressure::Medium, 0), 30);
    assert_eq!(adaptive_interval(30, MemoryPressure::Low, 0), 45);
    assert_eq!(adaptive_interval(30, MemoryPressure::Medium, 3), 45);
    assert_eq!(adaptive_interval(30, MemoryPressure::Medium, 6), 60);
    assert_eq!(adaptive_interval(1, MemoryPressure::Critical, 0), 5);
    assert_eq!(adaptive_interval(1_000, MemoryPressure::Low, 10), 300);
    assert_eq!(adaptive_interval(u64::MAX, MemoryPressure::Low, u32::MAX), 300);
    for base in [1u64, 7, 30, 100, 250, 1_000] {
        for failures in [0u32, 2, 3, 5, 6, 50] {
            let mut last = u64::MAX;
            for level in levels {
                let i = adaptive_interval(base, level, failures);
                assert!((5..=300).contains(&i));
                assert!(i <= last);
                last = i;
            }
        }
        for level in levels {
            let mut last = 0;
            for failures in [0u32, 1, 2, 3, 4, 5, 6, 100] {
                let i = adaptive_interval(base, level, failures);
                assert!(i >= last);
                last = i;
            }
        }
    }
}

#[test]
fn test_memory_trend_analysis() {
    let mut manager = MemoryManager::new(config(500, 30, 30), 0);
    for i in 0..20u64 {
        let memory_usage = 100 + i * 5;
        manager.record_memory_query(Ok(memory_usage), 0, i * 10).unwrap();
    }
    let trend = manager.get_memory_trend().expect("twenty samples give a trend");
    assert_eq!(trend.first_mb, 175);
    assert_eq!(trend.last_mb, 195);
    assert_eq!(trend.span_ms, 40);
    let per_hour = (trend.last_mb as f64 - trend.first_mb as f64) * 3_600_000.0 / trend.span_ms as f64;
    assert!(per_hour > 0.0);
}

#[test]
fn trend_needs_ten_samples_and_elapsed_time() {
    let mut history = HistoryTracker::new();
    for i in 0..9u64 {
        history.record(i * 1_000, 100 + i);
        assert!(history.trend().is_none());
    }
    history.record(9_000, 109);
    let trend = history.trend().unwrap();
    assert_eq!((trend.first_mb, trend.last_mb, trend.span_ms), (105, 109, 4_000));

    let mut still = HistoryTracker::new();
    for i in 0..12u64 {
        still.record(500, 100 + i);
    }
    assert!(still.trend().is_none());

    let mut long = HistoryTracker::new();
    for i in 0..400u64 {
        long.record(i, i);
    }
    // A quarter of 400 exceeds 50: the window is the newest 50 samples.
    let trend = long.trend().unwrap();
    assert_eq!((trend.first_mb, trend.last_mb, trend.span_ms), (350, 399, 49));
}

#[test]
fn history_is_bounded_in_size_and_age() {
    let mut history = HistoryTracker::new();
    for i in 0..1_005u64 {
        history.record(i, i);
        assert!(history.len() <= 1_000);
    }
    assert_eq!(history.len(), 1_000);
    assert_eq!(history.samples()[0].usage_mb, 5);
    assert_eq!(history.usage_total(), (5..1_005u128).sum::<u128>());

    let mut aged = HistoryTracker::new();
    aged.record(0, 1);
    aged.record(1_000, 2);
    aged.record(3_600_000, 3);
    // Exactly one hour old is still kept.
    assert_eq!(aged.len(), 3);
    aged.record(3_600_001, 4);
    assert_eq!(aged.len(), 3);
    assert_eq!(aged.samples()[0].usage_mb, 2);
    aged.record(10_000_000, 5);
    assert_eq!(aged.len(), 1);
    assert_eq!(aged.usage_total(), 5);
}

#[test]
fn empty_history_average_is_zero() {
    let manager = MemoryManager::new(config(500, 30, 30), 0);
    let average = manager.calculate_average_memory_usage();
    assert_eq!(average.samples, 0);
    assert_eq!(average.total_mb, 0);
    assert!(manager.get_memory_trend().is_none());
}

#[test]
fn recent_usage_keeps_sixty_figures() {
    let mut manager = MemoryManager::new(config(500, 30, 30), 0);
    for i in 0..70u64 {
        manager.record_memory_query(Ok(i), 0, i).unwrap();
    }
    let recent = manager.get_system_memory_history();
    assert_eq!(recent.len(), 60);
    assert_eq!(recent[0], 10);
    assert_eq!(recent[59], 69);
}

#[test]
fn memory_status_reports_the_last_level() {
    let mut manager = MemoryManager::new(config(500, 30, 30), 1_000);
    manager.update_memory_pressure(450);
    let status = manager.get_memory_status(Ok(450), 8_999).unwrap();
    assert_eq!(status.current_mb, 450);
    assert_eq!(status.threshold_mb, 500);
    assert_eq!(status.pressure, MemoryPressure::High);
    assert_eq!(status.time_since_last_gc_secs, 7);
    assert!(status.is_monitoring);
    let failed = manager.get_memory_status(Err(MemoryError::JemallocUnavailable), 9_000);
    assert!(matches!(failed, Err(MemoryError::JemallocUnavailable)));
}

#[test]
fn monitor_loop_backs_off_and_recovers() {
    let mut manager = MemoryManager::new(config(500, 30, 30), 0);
    let mut control = MonitorLoop::new(&manager, 0);
    assert_eq!(control.current_interval_secs, 30);

    // Low pressure would mean 45 s, but the first minute holds the interval.
    assert_eq!(control.next_interval(&mut manager, 1_000), 30);
    assert_eq!(manager.get_performance_stats().interval_adjustments, 0);

    manager.update_monitoring_cycle_stats();
    let alert = control.finish_cycle(&mut manager, CycleOutcome::Failed, 12, 2_000);
    assert_eq!(alert.unwrap().severity, FailureSeverity::Warning);
    for t in 0..5u64 {
        control.finish_cycle(&mut manager, CycleOutcome::TimedOut, 20, 3_000 + t);
    }
    assert_eq!(control.consecutive_failures, 6);

    let interval = control.next_interval(&mut manager, 61_000);
    assert_eq!(interval, 90);
    let stats = manager.get_performance_stats();
    assert_eq!(stats.interval_adjustments, 1);
    assert_eq!(stats.current_dynamic_interval, 90);
    assert_eq!(stats.monitoring_cycles, 1);
    assert_eq!(stats.max_monitoring_time_ms, 20);
    assert_eq!(stats.total_monitoring_time_ms, 112);

    assert!(control.finish_cycle(&mut manager, CycleOutcome::Idle, 1, 70_000).is_none());
    assert_eq!(control.consecutive_failures, 0);
    assert_eq!(control.last_successful_check_ms, 70_000);
}

#[test]
fn failure_severity_bands() {
    assert_eq!(failure_severity(0), None);
    assert_eq!(failure_severity(1), Some(FailureSeverity::Warning));
    assert_eq!(failure_severity(2), Some(FailureSeverity::Warning));
    assert_eq!(failure_severity(3), Some(FailureSeverity::Error));
    assert_eq!(failure_severity(5), Some(FailureSeverity::Error));
    assert_eq!(failure_severity(6), Some(FailureSeverity::Critical));

    assert!(handle_monitoring_failure(0, 0, 10).is_none());
    let alert = handle_monitoring_failure(7, 0, 3_600_001).unwrap();
    assert_eq!(alert.severity, FailureSeverity::Critical);
    assert!(alert.prolonged);
    assert_eq!(alert.since_success_ms, 3_600_001);
    let alert = handle_monitoring_failure(7, 0, 3_600_000).unwrap();
    assert!(!alert.prolonged);
    let alert = handle_monitoring_failure(4, 0, 9_000_000).unwrap();
    assert!(!alert.prolonged);
}

#[test]
fn usage_sources_and_errors() {
    assert_eq!(usage_from_process(7, Some(300 * 1024 * 1024)).unwrap(), 300);
    match usage_from_process(42, None) {
        Err(MemoryError::MetricsCollectionFailed(msg)) => {
            assert_eq!(msg, "Unable to find process with PID 42")
        }
        other => panic!("unexpected {:?}", other),
    }
    assert_eq!(cache_cleanup_outcome(10, true, 4).unwrap(), 6);
    assert_eq!(cache_cleanup_outcome(4, true, 10).unwrap(), 0);
    match cache_cleanup_outcome(10, false, 4) {
        Err(MemoryError::CacheCleanupFailed(msg)) => assert_eq!(msg, "Memory cache cleanup timeout"),
        other => panic!("unexpected {:?}", other),
    }
}

#[test]
fn configuration_defaults_and_validation() {
    assert_eq!(default_memory_threshold(), 500);
    assert_eq!(default_check_interval(), 30);
    assert_eq!(default_gc_cooldown(), 30);
    assert_eq!(MemoryConfig::default(), config(500, 30, 30));
    assert!(config(500, 30, 30).validate().is_ok());
    for bad in [config(0, 30, 30), config(500, 0, 30), config(500, 30, 0)] {
        assert!(matches!(bad.validate(), Err(MemoryError::InvalidConfig(_))));
    }
    let stats = PerformanceStats::default();
    assert_eq!(stats.current_dynamic_interval, 30);
    assert_eq!(stats.monitoring_cycles, 0);
}

#[test]
fn release_effect_levels() {
    let nothing = ReleaseResult {
        memory_freed_mb: 0,
        cache_entries_cleared: 0,
        gc_executed: false,
        timestamp_ms: 0,
    };
    assert_eq!(assess_release(&nothing, 500), ReleaseEffect::NoEffect);
    let purged = ReleaseResult { gc_executed: true, ..nothing };
    assert_eq!(assess_release(&purged, 500), ReleaseEffect::Weak);
    assert_eq!(assess_release(&purged, 100), ReleaseEffect::Effective);
    let freed = ReleaseResult { memory_freed_mb: 50, ..nothing };
    assert_eq!(assess_release(&freed, 500), ReleaseEffect::Effective);
    let little = ReleaseResult { memory_freed_mb: 49, ..nothing };
    assert_eq!(assess_release(&little, 500), ReleaseEffect::Weak);
}
