//! Classification of usage into pressure levels.

use vstd::prelude::*;

verus! {

/// Discretised memory pressure, from a usage figure relative to a threshold.
#[derive(Debug, Clone, Copy, PartialEq, Eq, Structural)]
pub enum MemoryPressure {
    /// Usage below 60% of the threshold.
    Low,
    /// Usage from 60% up to (not including) 80% of the threshold.
    Medium,
    /// Usage from 80% up to (not including) 100% of the threshold.
    High,
    /// Usage at or above the threshold.
    Critical,
}

impl MemoryPressure {
    /// Position of the level in the order Low < Medium < High < Critical.
    pub open spec fn rank(self) -> int {
        match self {
            MemoryPressure::Low => 0,
            MemoryPressure::Medium => 1,
            MemoryPressure::High => 2,
            MemoryPressure::Critical => 3,
        }
    }
}

/// The level of `current_mb` against `threshold_mb`; each band includes its
/// lower edge (exactly 60%, 80% and 100% fall into the higher band).
pub open spec fn pressure_of(current_mb: int, threshold_mb: int) -> MemoryPressure {
    if 100 * current_mb < 60 * threshold_mb {
        MemoryPressure::Low
    } else if 100 * current_mb < 80 * threshold_mb {
        MemoryPressure::Medium
    } else if current_mb < threshold_mb {
        MemoryPressure::High
    } else {
        MemoryPressure::Critical
    }
}

/// Classifies `current_mb` against `threshold_mb`.
pub fn classify(current_mb: u64, threshold_mb: u64) -> (r: MemoryPressure)
    requires
        threshold_mb > 0,
    ensures
        r == pressure_of(current_mb as int, threshold_mb as int),
{
    let scaled = current_mb as u128 * 100;
    let limit = threshold_mb as u128;
    if scaled < limit * 60 {
        MemoryPressure::Low
    } else if scaled < limit * 80 {
        MemoryPressure::Medium
    } else if current_mb < threshold_mb {
        MemoryPressure::High
    } else {
        MemoryPressure::Critical
    }
}

/// Being below the edge `k / 100` of the threshold carries over from the
/// ratio `u2 / t2` to any ratio `u1 / t1` that is not larger.
proof fn lemma_below_edge(u1: int, t1: int, u2: int, t2: int, k: int)
    requires
        t1 > 0,
        t2 > 0,
        u1 * t2 <= u2 * t1,
    ensures
        100 * u2 < k * t2 ==> 100 * u1 < k * t1,
{
    if 100 * u2 < k * t2 {
        assert(100 * u1 * t2 <= 100 * u2 * t1) by (nonlinear_arith)
            requires
                u1 * t2 <= u2 * t1,
        ;
        assert(100 * u2 * t1 < k * t2 * t1) by (nonlinear_arith)
            requires
                100 * u2 < k * t2,
                t1 > 0,
        ;
        assert(100 * u1 < k * t1) by (nonlinear_arith)
            requires
                100 * u1 * t2 < k * t2 * t1,
                t2 > 0,
        ;
    }
}

/// Classification is one of the four levels, and never falls as the ratio of
/// usage to threshold rises: if `u1 / t1 <= u2 / t2` then the level of
/// `(u1, t1)` is at most the level of `(u2, t2)`.
pub proof fn lemma_pressure_monotonic(u1: int, t1: int, u2: int, t2: int)
    requires
        t1 > 0,
        t2 > 0,
        u1 >= 0,
        u2 >= 0,
        u1 * t2 <= u2 * t1,
    ensures
        0 <= pressure_of(u1, t1).rank() <= 3,
        pressure_of(u1, t1).rank() <= pressure_of(u2, t2).rank(),
{
    lemma_below_edge(u1, t1, u2, t2, 60);
    lemma_below_edge(u1, t1, u2, t2, 80);
    lemma_below_edge(u1, t1, u2, t2, 100);
    assert(100 * u2 < 60 * t2 ==> 100 * u1 < 60 * t1);
    assert(100 * u2 < 80 * t2 ==> 100 * u1 < 80 * t1);
    assert(100 * u2 < 100 * t2 ==> 100 * u1 < 100 * t1);
}

} // verus!
