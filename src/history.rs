//! The bounded history of usage samples, its sum and its trend.

use vstd::prelude::*;

verus! {

/// Most samples the history keeps.
pub const HISTORY_CAPACITY: usize = 1000;

/// Oldest age, in milliseconds, of a sample that the history keeps.
pub const HISTORY_MAX_AGE_MS: u64 = 3_600_000;

/// Fewest samples from which a trend is estimated.
pub const TREND_MIN_SAMPLES: usize = 10;

/// One observation of memory usage, taken at a point of a monotonic clock.
#[derive(Debug, Clone, Copy, PartialEq, Eq, Structural)]
pub struct HistorySample {
    /// Milliseconds on the monitor's monotonic clock.
    pub at_ms: u64,
    /// Usage in MB.
    pub usage_mb: u64,
}

/// Whether `sample` is at most one hour old at time `now`. A sample stamped
/// after `now` has no age yet and counts as recent.
pub open spec fn is_recent(sample: HistorySample, now: int) -> bool {
    now - sample.at_ms <= HISTORY_MAX_AGE_MS
}

/// The samples of `s` that are recent at `now`, in their order.
pub open spec fn retain_recent(s: Seq<HistorySample>, now: int) -> Seq<HistorySample>
    decreases s.len(),
{
    if s.len() == 0 {
        s
    } else {
        let rest = retain_recent(s.drop_last(), now);
        if is_recent(s.last(), now) {
            rest.push(s.last())
        } else {
            rest
        }
    }
}

/// The history after recording `usage` at `now`: the sample is appended, the
/// oldest sample leaves when the capacity is exceeded, and samples older than
/// one hour leave.
pub open spec fn recorded(s: Seq<HistorySample>, now: int, usage: int) -> Seq<HistorySample> {
    let pushed = s.push(HistorySample { at_ms: now as u64, usage_mb: usage as u64 });
    let capped = if pushed.len() > HISTORY_CAPACITY {
        pushed.drop_first()
    } else {
        pushed
    };
    retain_recent(capped, now)
}

/// Sum of the usage figures of `s`.
pub open spec fn usage_total(s: Seq<HistorySample>) -> int
    decreases s.len(),
{
    if s.len() == 0 {
        0
    } else {
        usage_total(s.drop_last()) + s.last().usage_mb
    }
}

/// Size of the window of most recent samples that a trend is taken over:
/// a quarter of the samples, at least 5 and at most 50.
pub open spec fn trend_window(len: int) -> int {
    let quarter = len / 4;
    let at_least = if quarter < 5 {
        5
    } else {
        quarter
    };
    if at_least > 50 {
        50
    } else {
        at_least
    }
}

/// A two-point estimate of how usage moves: the oldest and newest samples of
/// the trend window, and the time between them.
#[derive(Debug, Clone, Copy, PartialEq, Eq, Structural)]
pub struct MemoryTrend {
    /// Usage of the oldest sample of the window, in MB.
    pub first_mb: u64,
    /// Usage of the newest sample of the window, in MB.
    pub last_mb: u64,
    /// Milliseconds from the oldest to the newest sample; never zero.
    pub span_ms: u64,
}

/// The trend of `s`: none under ten samples, or where the window spans no
/// time; otherwise its endpoints. The rate in MB per hour is
/// `(last_mb - first_mb) * 3_600_000 / span_ms`.
pub open spec fn trend_of(s: Seq<HistorySample>) -> Option<MemoryTrend> {
    if s.len() < TREND_MIN_SAMPLES {
        None
    } else {
        let oldest = s[s.len() - trend_window(s.len() as int)];
        let newest = s[s.len() - 1];
        if newest.at_ms > oldest.at_ms {
            Some(
                MemoryTrend {
                    first_mb: oldest.usage_mb,
                    last_mb: newest.usage_mb,
                    span_ms: (newest.at_ms - oldest.at_ms) as u64,
                },
            )
        } else {
            None
        }
    }
}

/// A bounded, time-limited window of usage samples, oldest first.
pub struct HistoryTracker {
    samples: Vec<HistorySample>,
}

impl View for HistoryTracker {
    type V = Seq<HistorySample>;

    closed spec fn view(&self) -> Seq<HistorySample> {
        self.samples@
    }
}

impl HistoryTracker {
    /// The history never holds more than its capacity.
    pub open spec fn wf(&self) -> bool {
        self@.len() <= HISTORY_CAPACITY
    }

    /// An empty history.
    pub fn new() -> (r: Self)
        ensures
            r@ == Seq::<HistorySample>::empty(),
            r.wf(),
    {
        HistoryTracker { samples: Vec::new() }
    }

    /// Number of retained samples.
    pub fn len(&self) -> (r: usize)
        ensures
            r == self@.len(),
    {
        self.samples.len()
    }

    /// The retained samples, oldest first.
    pub fn samples(&self) -> (r: Vec<HistorySample>)
        ensures
            r@ == self@,
    {
        self.samples.clone()
    }

    /// Appends a sample of `usage_mb` taken at `now_ms`, then drops the oldest
    /// sample if the capacity is exceeded and every sample older than one hour.
    pub fn record(&mut self, now_ms: u64, usage_mb: u64)
        requires
            old(self).wf(),
        ensures
            final(self)@ == recorded(old(self)@, now_ms as int, usage_mb as int),
            final(self).wf(),
            forall|i: int|
                0 <= i < final(self)@.len() ==> is_recent(#[trigger] final(self)@[i], now_ms as int),
    {
        self.samples.push(HistorySample { at_ms: now_ms, usage_mb });
        if self.samples.len() > HISTORY_CAPACITY {
            self.samples.remove(0);
        }
        let ghost capped = self.samples@;
        assert(capped =~= {
            let pushed = old(self)@.push(HistorySample { at_ms: now_ms, usage_mb: usage_mb });
            if pushed.len() > HISTORY_CAPACITY {
                pushed.drop_first()
            } else {
                pushed
            }
        });
        let mut kept: Vec<HistorySample> = Vec::new();
        let n = self.samples.len();
        let mut i: usize = 0;
        while i < n
            invariant
                n == self.samples@.len(),
                self.samples@ == capped,
                i <= n,
                kept@ == retain_recent(capped.subrange(0, i as int), now_ms as int),
            decreases n - i,
        {
            let sample = self.samples[i];
            assert(capped.subrange(0, i + 1).drop_last() =~= capped.subrange(0, i as int));
            if sample.at_ms >= now_ms || now_ms - sample.at_ms <= HISTORY_MAX_AGE_MS {
                kept.push(sample);
            }
            i = i + 1;
        }
        assert(capped.subrange(0, n as int) =~= capped);
        self.samples = kept;
        proof {
            lemma_retain_recent_shape(capped, now_ms as int);
        }
    }

    /// Sum of the retained usage figures, in MB.
    pub fn usage_total(&self) -> (r: u128)
        requires
            self.wf(),
        ensures
            r == usage_total(self@),
    {
        let n = self.samples.len();
        let mut total: u128 = 0;
        let mut i: usize = 0;
        while i < n
            invariant
                n == self@.len(),
                n <= HISTORY_CAPACITY,
                i <= n,
                total == usage_total(self@.subrange(0, i as int)),
                total <= i * 0xffff_ffff_ffff_ffffu64,
            decreases n - i,
        {
            assert(self@.subrange(0, i + 1).drop_last() =~= self@.subrange(0, i as int));
            total = total + self.samples[i].usage_mb as u128;
            i = i + 1;
        }
        assert(self@.subrange(0, n as int) =~= self@);
        total
    }

    /// The usage trend over the most recent samples (see `trend_of`).
    pub fn trend(&self) -> (r: Option<MemoryTrend>)
        ensures
            r == trend_of(self@),
    {
        let n = self.samples.len();
        if n < TREND_MIN_SAMPLES {
            return None;
        }
        let quarter = n / 4;
        let at_least = if quarter < 5 {
            5
        } else {
            quarter
        };
        let window = if at_least > 50 {
            50
        } else {
            at_least
        };
        let oldest = self.samples[n - window];
        let newest = self.samples[n - 1];
        if newest.at_ms > oldest.at_ms {
            Some(
                MemoryTrend {
                    first_mb: oldest.usage_mb,
                    last_mb: newest.usage_mb,
                    span_ms: newest.at_ms - oldest.at_ms,
                },
            )
        } else {
            None
        }
    }
}

/// What `retain_recent` keeps is no longer than its input and holds only
/// recent samples.
pub proof fn lemma_retain_recent_shape(s: Seq<HistorySample>, now: int)
    ensures
        retain_recent(s, now).len() <= s.len(),
        forall|i: int|
            0 <= i < retain_recent(s, now).len() ==> is_recent(
                #[trigger] retain_recent(s, now)[i],
                now,
            ),
    decreases s.len(),
{
    if s.len() > 0 {
        lemma_retain_recent_shape(s.drop_last(), now);
        let rest = retain_recent(s.drop_last(), now);
        assert forall|i: int|
            0 <= i < retain_recent(s, now).len() implies is_recent(
            #[trigger] retain_recent(s, now)[i],
            now,
        ) by {
            if i < rest.len() {
                assert(retain_recent(s, now)[i] == rest[i]);
            }
        }
    }
}

/// Recording a sample keeps the history within its capacity, and leaves no
/// sample in it that is older than one hour.
pub proof fn lemma_recorded_bounded(s: Seq<HistorySample>, now: int, usage: int)
    requires
        s.len() <= HISTORY_CAPACITY,
    ensures
        recorded(s, now, usage).len() <= HISTORY_CAPACITY,
        forall|i: int|
            0 <= i < recorded(s, now, usage).len() ==> is_recent(
                #[trigger] recorded(s, now, usage)[i],
                now,
            ),
{
    let pushed = s.push(HistorySample { at_ms: now as u64, usage_mb: usage as u64 });
    let capped = if pushed.len() > HISTORY_CAPACITY {
        pushed.drop_first()
    } else {
        pushed
    };
    lemma_retain_recent_shape(capped, now);
}

/// Under ten samples there is no trend. Over samples that rise strictly in
/// both time and usage, the trend exists and is upward.
pub proof fn lemma_trend_direction(s: Seq<HistorySample>)
    ensures
        s.len() < TREND_MIN_SAMPLES ==> trend_of(s) is None,
        (s.len() >= TREND_MIN_SAMPLES && forall|i: int, j: int|
            0 <= i < j < s.len() ==> (#[trigger] s[i]).at_ms < (#[trigger] s[j]).at_ms
                && s[i].usage_mb < s[j].usage_mb) ==> ({
            &&& trend_of(s) is Some
            &&& trend_of(s)->Some_0.last_mb > trend_of(s)->Some_0.first_mb
        }),
{
    if s.len() >= TREND_MIN_SAMPLES {
        let w = trend_window(s.len() as int);
        assert(5 <= w <= s.len());
        assert(s.len() - w < s.len() - 1);
    }
}

} // verus!
