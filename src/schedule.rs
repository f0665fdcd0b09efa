//! The polling schedule: the adaptive interval and the grading of failure runs.

use crate::pressure::MemoryPressure;
use vstd::prelude::*;

verus! {

/// Shortest polling interval, in seconds.
pub const MIN_INTERVAL_SECS: u64 = 5;

/// Longest polling interval, in seconds.
pub const MAX_INTERVAL_SECS: u64 = 300;

/// Least time between two changes of the polling interval, in ms.
pub const ADJUSTMENT_SPACING_MS: u64 = 60_000;

/// Time without a successful check after which sustained failure is
/// reported as prolonged, in ms.
pub const PROLONGED_FAILURE_MS: u64 = 3_600_000;

/// The pressure multiplier in quarters: Critical 0.5, High 0.75, Medium 1.0,
/// Low 1.5.
pub open spec fn pressure_quarters(p: MemoryPressure) -> int {
    match p {
        MemoryPressure::Critical => 2,
        MemoryPressure::High => 3,
        MemoryPressure::Medium => 4,
        MemoryPressure::Low => 6,
    }
}

/// The failure multiplier in halves: 1.0 up to two consecutive failures,
/// 1.5 for three to five, 2.0 beyond.
pub open spec fn failure_halves(failures: int) -> int {
    if failures <= 2 {
        2
    } else if failures <= 5 {
        3
    } else {
        4
    }
}

/// `x` held within `[MIN_INTERVAL_SECS, MAX_INTERVAL_SECS]`.
pub open spec fn clamp_interval(x: int) -> int {
    if x < MIN_INTERVAL_SECS {
        MIN_INTERVAL_SECS as int
    } else if x > MAX_INTERVAL_SECS {
        MAX_INTERVAL_SECS as int
    } else {
        x
    }
}

/// The polling interval for base interval `base`, pressure `p` and
/// `failures` consecutive failures: the base times both multipliers, rounded
/// down, then held within the bounds.
pub open spec fn interval_for(base: int, p: MemoryPressure, failures: int) -> int {
    clamp_interval(base * pressure_quarters(p) * failure_halves(failures) / 8)
}

/// Computes `interval_for(base, pressure, failures)`.
pub fn adaptive_interval(base: u64, pressure: MemoryPressure, failures: u32) -> (r: u64)
    ensures
        r == interval_for(base as int, pressure, failures as int),
{
    let quarters: u128 = match pressure {
        MemoryPressure::Critical => 2,
        MemoryPressure::High => 3,
        MemoryPressure::Medium => 4,
        MemoryPressure::Low => 6,
    };
    let halves: u128 = if failures <= 2 {
        2
    } else if failures <= 5 {
        3
    } else {
        4
    };
    assert(base as int * quarters * halves <= 0xffff_ffff_ffff_ffff * 24) by (nonlinear_arith)
        requires
            base <= 0xffff_ffff_ffff_ffffu64,
            quarters <= 6,
            halves <= 4,
    ;
    let raw = base as u128 * quarters * halves / 8;
    if raw < MIN_INTERVAL_SECS as u128 {
        MIN_INTERVAL_SECS
    } else if raw > MAX_INTERVAL_SECS as u128 {
        MAX_INTERVAL_SECS
    } else {
        raw as u64
    }
}

/// The adaptive interval always lies within the bounds; it never grows as
/// pressure rises (same failure count), and never shrinks as consecutive
/// failures rise (same pressure).
pub proof fn lemma_interval_monotonic(
    base: int,
    p1: MemoryPressure,
    p2: MemoryPressure,
    f1: int,
    f2: int,
)
    requires
        base >= 0,
        0 <= f1,
    ensures
        MIN_INTERVAL_SECS <= interval_for(base, p1, f1) <= MAX_INTERVAL_SECS,
        p1.rank() <= p2.rank() ==> interval_for(base, p2, f1) <= interval_for(base, p1, f1),
        f1 <= f2 ==> interval_for(base, p1, f1) <= interval_for(base, p1, f2),
{
    if p1.rank() <= p2.rank() {
        lemma_scaled_ordered(
            base,
            pressure_quarters(p2),
            failure_halves(f1),
            pressure_quarters(p1),
            failure_halves(f1),
        );
    }
    if f1 <= f2 {
        lemma_scaled_ordered(
            base,
            pressure_quarters(p1),
            failure_halves(f1),
            pressure_quarters(p1),
            failure_halves(f2),
        );
    }
}

/// Smaller multipliers give an interval that is no longer.
proof fn lemma_scaled_ordered(base: int, q1: int, h1: int, q2: int, h2: int)
    requires
        base >= 0,
        0 <= q1 <= q2,
        0 <= h1 <= h2,
    ensures
        clamp_interval(base * q1 * h1 / 8) <= clamp_interval(base * q2 * h2 / 8),
{
    assert(base * q1 * h1 <= base * q2 * h2) by (nonlinear_arith)
        requires
            base >= 0,
            0 <= q1 <= q2,
            0 <= h1 <= h2,
    ;
    assert(base * q1 * h1 / 8 <= base * q2 * h2 / 8) by (nonlinear_arith)
        requires
            base * q1 * h1 <= base * q2 * h2,
    ;
}

/// How serious a run of consecutive failures is.
#[derive(Debug, Clone, Copy, PartialEq, Eq, Structural)]
pub enum FailureSeverity {
    /// One or two failures.
    Warning,
    /// Three to five failures.
    Error,
    /// More than five failures.
    Critical,
}

/// The severity of `count` consecutive failures; none for zero.
pub open spec fn severity_of(count: int) -> Option<FailureSeverity> {
    if count <= 0 {
        None
    } else if count <= 2 {
        Some(FailureSeverity::Warning)
    } else if count <= 5 {
        Some(FailureSeverity::Error)
    } else {
        Some(FailureSeverity::Critical)
    }
}

/// Computes `severity_of(count)`.
pub fn failure_severity(count: u32) -> (r: Option<FailureSeverity>)
    ensures
        r == severity_of(count as int),
{
    if count == 0 {
        None
    } else if count <= 2 {
        Some(FailureSeverity::Warning)
    } else if count <= 5 {
        Some(FailureSeverity::Error)
    } else {
        Some(FailureSeverity::Critical)
    }
}

/// What the monitor reports after a failed check.
#[derive(Debug, Clone, Copy, PartialEq, Eq, Structural)]
pub struct MonitoringAlert {
    pub severity: FailureSeverity,
    /// Consecutive failed checks, this one included.
    pub consecutive_failures: u32,
    /// Time since the last successful check, in ms.
    pub since_success_ms: u64,
    /// Failures are critical and no check has succeeded for over an hour.
    pub prolonged: bool,
}

/// The alert for a run of `count` failed checks, the last success having
/// been at `last_success_ms`; none for zero failures. The run is prolonged
/// when it is critical and over an hour has passed since the last success.
pub open spec fn alert_of(count: u32, last_success_ms: u64, now_ms: u64) -> Option<MonitoringAlert> {
    match severity_of(count as int) {
        None => None,
        Some(severity) => {
            let since_success_ms = if now_ms >= last_success_ms {
                (now_ms - last_success_ms) as u64
            } else {
                0
            };
            Some(
                MonitoringAlert {
                    severity,
                    consecutive_failures: count,
                    since_success_ms,
                    prolonged: severity == FailureSeverity::Critical && since_success_ms
                        > PROLONGED_FAILURE_MS,
                },
            )
        },
    }
}

/// Classifies a run of `consecutive_failures` failed checks (see `alert_of`).
pub fn handle_monitoring_failure(consecutive_failures: u32, last_success_ms: u64, now_ms: u64) -> (r:
    Option<MonitoringAlert>)
    ensures
        r == alert_of(consecutive_failures, last_success_ms, now_ms),
{
    match failure_severity(consecutive_failures) {
        None => None,
        Some(severity) => {
            let since_success_ms = now_ms.saturating_sub(last_success_ms);
            let prolonged = match severity {
                FailureSeverity::Critical => since_success_ms > PROLONGED_FAILURE_MS,
                _ => false,
            };
            Some(MonitoringAlert { severity, consecutive_failures, since_success_ms, prolonged })
        },
    }
}

} // verus!
