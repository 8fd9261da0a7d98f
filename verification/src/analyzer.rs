//! Load history and its classification: a short ring of recent samples
//! yields a rising / falling / stable trend, and a consecutive-sample
//! counter yields the idle flag with asymmetric hysteresis.

use vstd::prelude::*;

verus! {

/// Number of consecutive at-or-below-threshold samples that declare idle.
pub const IDLE_ENTER_COUNT: i64 = 60;

/// Load percentage at or above which a single sample clears idle at once.
pub const IDLE_RECOVERY_LOAD: i32 = 50;

/// Sum of a sequence of samples, as a mathematical integer.
pub open spec fn seq_sum(s: Seq<i32>) -> int
    decreases s.len(),
{
    if s.len() == 0 {
        0
    } else {
        seq_sum(s.drop_last()) + s.last()
    }
}

/// The trend of a history window: rising when the mean of the two most
/// recent samples exceeds the mean of the earlier samples by more than the
/// five-point noise threshold, falling in the symmetric case, stable
/// otherwise and whenever fewer than three samples are known. Stated over
/// integers: with `n` earlier samples, the means compare as
/// `recent_sum / 2` against `older_sum / n` with a margin of five.
pub open spec fn trend_of(h: Seq<i32>) -> i32 {
    if h.len() < 3 {
        0
    } else {
        let n = h.len() - 2;
        let recent = (h[h.len() - 2] as int) + (h[h.len() - 1] as int);
        let older = seq_sum(h.take(h.len() - 2));
        if recent * n > 2 * older + 10 * n {
            1
        } else if recent * n < 2 * older - 10 * n {
            -1i32
        } else {
            0
        }
    }
}

/// Consecutive-low count after one sample: it grows while samples stay at
/// or below the idle threshold and resets on any sample above it.
pub open spec fn idle_low_after(low: int, util: int, threshold: int) -> int {
    if util <= threshold {
        low + 1
    } else {
        0
    }
}

/// Idle flag after one sample: set once the consecutive-low count reaches
/// the enter count, cleared at once by a sample at or above the recovery
/// threshold, kept otherwise.
pub open spec fn idle_flag_after(low: int, flag: bool, util: int, threshold: int) -> bool {
    if util <= threshold {
        if low + 1 >= IDLE_ENTER_COUNT as int {
            true
        } else {
            flag
        }
    } else if util >= IDLE_RECOVERY_LOAD as int {
        false
    } else {
        flag
    }
}

/// The (count, flag) pair after a whole run of samples.
pub open spec fn idle_run(low: int, flag: bool, threshold: int, samples: Seq<int>) -> (int, bool)
    decreases samples.len(),
{
    if samples.len() == 0 {
        (low, flag)
    } else {
        idle_run(
            idle_low_after(low, samples[0], threshold),
            idle_flag_after(low, flag, samples[0], threshold),
            threshold,
            samples.drop_first(),
        )
    }
}

/// Enough consecutive at-or-below-threshold samples always declare idle:
/// from any starting count, once the count plus the run length reaches the
/// enter threshold, the flag is set at the end of the run.
pub proof fn lemma_idle_after_consecutive_low(
    low: int,
    flag: bool,
    threshold: int,
    samples: Seq<int>,
)
    requires
        low >= 0,
        samples.len() >= 1,
        low + samples.len() >= IDLE_ENTER_COUNT as int,
        forall|i: int| 0 <= i < samples.len() ==> samples[i] <= threshold,
    ensures
        idle_run(low, flag, threshold, samples).1,
    decreases samples.len(),
{
    let low1 = idle_low_after(low, samples[0], threshold);
    let flag1 = idle_flag_after(low, flag, samples[0], threshold);
    assert(samples[0] <= threshold);
    assert(low1 == low + 1);
    assert(idle_run(low, flag, threshold, samples) == idle_run(
        low1,
        flag1,
        threshold,
        samples.drop_first(),
    ));
    if samples.len() == 1 {
        assert(low + 1 >= IDLE_ENTER_COUNT as int);
        assert(flag1);
        assert(idle_run(low1, flag1, threshold, samples.drop_first()) == (low1, flag1));
    } else {
        assert(forall|i: int|
            0 <= i < samples.drop_first().len() ==> samples.drop_first()[i] <= threshold);
        lemma_idle_after_consecutive_low(low + 1, flag1, threshold, samples.drop_first());
    }
}

/// A single sample at or above the recovery threshold clears the idle flag
/// immediately, regardless of the prior consecutive count or flag. The
/// idle threshold must lie below the recovery threshold, as it does in any
/// sensible configuration.
pub proof fn lemma_idle_recovery(low: int, flag: bool, util: int, threshold: int)
    requires
        util >= IDLE_RECOVERY_LOAD as int,
        threshold < IDLE_RECOVERY_LOAD as int,
    ensures
        !idle_flag_after(low, flag, util, threshold),
{
}

/// Analyzer of the recent load samples of the GPU.
#[derive(Clone, Debug, PartialEq, Eq)]
pub struct LoadAnalyzer {
    /// Most recent samples, oldest first.
    pub load_history: Vec<i32>,
    /// Capacity of the history window.
    pub load_history_size: usize,
    /// Last classified trend: -1 falling, 0 stable, 1 rising.
    pub load_trend: i32,
    /// Current load zone, kept for callers that band loads.
    pub current_load_zone: i32,
    /// How many consecutive samples fell in the current zone.
    pub load_zone_counter: i32,
    /// Consecutive at-or-below-threshold sample count.
    pub load_low: i64,
    /// Whether the analyzer classifies the GPU as idle.
    pub is_idle: bool,
    /// Load percentage at or below which a sample counts towards idle.
    pub idle_threshold: i32,
}

impl LoadAnalyzer {
    /// Well-formedness: the window is bounded so that sample sums stay far
    /// from the integer limits.
    pub open spec fn wf(self) -> bool {
        &&& self.load_history@.len() <= self.load_history_size
        &&& self.load_history_size <= 1024
    }

    pub fn new() -> (r: Self)
        ensures
            r.load_history@ =~= Seq::<i32>::empty(),
            r.load_history_size == 5,
            r.load_trend == 0,
            r.current_load_zone == 2,
            r.load_zone_counter == 0,
            r.load_low == 0,
            !r.is_idle,
            r.idle_threshold == crate::idle::IDLE_THRESHOLD,
            r.wf(),
    {
        Self {
            load_history: Vec::new(),
            load_history_size: 5,
            load_trend: 0,
            current_load_zone: 2,
            load_zone_counter: 0,
            load_low: 0,
            is_idle: false,
            idle_threshold: crate::idle::IDLE_THRESHOLD,
        }
    }

    /// The history after one more sample: the sample is appended and, when
    /// the window is full, the oldest sample leaves.
    pub open spec fn spec_history_after(self, load: i32) -> Seq<i32> {
        if self.load_history@.len() + 1 <= self.load_history_size {
            self.load_history@.push(load)
        } else {
            self.load_history@.push(load).drop_first()
        }
    }

    /// Record one sample and reclassify the trend of the window.
    pub fn update_load_history(&mut self, load: i32) -> (r: i32)
        requires
            old(self).wf(),
        ensures
            final(self).load_history@ =~= old(self).spec_history_after(load),
            final(self).load_trend == trend_of(final(self).load_history@),
            final(self).wf(),
            r == final(self).load_trend,
            *final(self) == (LoadAnalyzer {
                load_history: final(self).load_history,
                load_trend: final(self).load_trend,
                ..*old(self)
            }),
    {
        self.load_history.push(load);
        if self.load_history.len() > self.load_history_size {
            self.load_history.remove(0);
            proof {
                assert(self.load_history@ =~= old(self).load_history@.push(load).drop_first());
            }
        }
        self.analyze_load_trend()
    }

    /// Reclassify the trend of the current window.
    fn analyze_load_trend(&mut self) -> (r: i32)
        requires
            old(self).wf(),
        ensures
            final(self).load_trend == trend_of(old(self).load_history@),
            final(self).wf(),
            r == final(self).load_trend,
            *final(self) == (LoadAnalyzer { load_trend: final(self).load_trend, ..*old(self) }),
    {
        let len = self.load_history.len();
        if len < 3 {
            self.load_trend = 0;
            return self.load_trend;
        }
        let recent: i64 = self.load_history[len - 2] as i64 + self.load_history[len - 1] as i64;
        let mut older: i64 = 0;
        let mut k: usize = 0;
        while k < len - 2
            invariant
                old(self).wf(),
                self == old(self),
                3 <= len <= 1024,
                len == self.load_history@.len(),
                0 <= k <= len - 2,
                older == seq_sum(self.load_history@.take(k as int)),
                -0x80000000int * (k as int) <= older <= 0x80000000int * (k as int),
            decreases len - 2 - k,
        {
            proof {
                assert(self.load_history@.take(k as int + 1).drop_last() =~= self
                    .load_history@
                    .take(k as int));
            }
            older = older + self.load_history[k] as i64;
            k += 1;
        }
        let n: i64 = (len - 2) as i64;
        proof {
            assert((recent as int) * (n as int) <= 0x40000000000int && (recent as int) * (n as int)
                >= -0x40000000000int) by (nonlinear_arith)
                requires
                    -0x100000000int <= recent as int <= 0x100000000int,
                    1int <= n as int <= 1022int,
            ;
        }
        if recent * n > 2 * older + 10 * n {
            self.load_trend = 1;
        } else if recent * n < 2 * older - 10 * n {
            self.load_trend = -1;
        } else {
            self.load_trend = 0;
        }
        self.load_trend
    }

    /// Feed one utilization sample into the idle hysteresis: consecutive
    /// at-or-below-threshold samples accumulate towards the idle flag, and
    /// a sample at or above the recovery threshold clears it immediately.
    pub fn check_idle_state(&mut self, util: i32)
        requires
            old(self).load_low < i64::MAX,
        ensures
            final(self).load_low == idle_low_after(
                old(self).load_low as int,
                util as int,
                old(self).idle_threshold as int,
            ),
            final(self).is_idle == idle_flag_after(
                old(self).load_low as int,
                old(self).is_idle,
                util as int,
                old(self).idle_threshold as int,
            ),
            *final(self) == (LoadAnalyzer {
                load_low: final(self).load_low,
                is_idle: final(self).is_idle,
                ..*old(self)
            }),
    {
        if util <= self.idle_threshold {
            self.load_low = self.load_low + 1;
            if self.load_low >= IDLE_ENTER_COUNT {
                self.is_idle = true;
            }
        } else {
            self.load_low = 0;
            if util >= IDLE_RECOVERY_LOAD {
                self.is_idle = false;
            }
        }
    }

    pub fn get_load_trend(&self) -> (r: i32)
        ensures
            r == self.load_trend,
    {
        self.load_trend
    }

    pub fn get_current_load_zone(&self) -> (r: i32)
        ensures
            r == self.current_load_zone,
    {
        self.current_load_zone
    }

    /// Record the zone of the latest sample: entering a new zone restarts
    /// the zone counter at one, staying in the zone advances it.
    pub fn set_current_load_zone(&mut self, zone: i32)
        requires
            old(self).load_zone_counter < i32::MAX,
        ensures
            final(self).current_load_zone == zone,
            final(self).load_zone_counter == if zone != old(self).current_load_zone {
                1int
            } else {
                old(self).load_zone_counter + 1
            },
            *final(self) == (LoadAnalyzer {
                current_load_zone: zone,
                load_zone_counter: final(self).load_zone_counter,
                ..*old(self)
            }),
    {
        if zone != self.current_load_zone {
            self.load_zone_counter = 1;
        } else {
            self.load_zone_counter = self.load_zone_counter + 1;
        }
        self.current_load_zone = zone;
    }

    pub fn get_load_zone_counter(&self) -> (r: i32)
        ensures
            r == self.load_zone_counter,
    {
        self.load_zone_counter
    }

    pub fn reset_load_zone_counter(&mut self)
        ensures
            *final(self) == (LoadAnalyzer { load_zone_counter: 0i32, ..*old(self) }),
    {
        self.load_zone_counter = 0;
    }

    pub fn is_idle(&self) -> (r: bool)
        ensures
            r == self.is_idle,
    {
        self.is_idle
    }

    pub fn set_idle(&mut self, idle: bool)
        ensures
            *final(self) == (LoadAnalyzer { is_idle: idle, ..*old(self) }),
    {
        self.is_idle = idle;
    }
}

impl Default for LoadAnalyzer {
    fn default() -> (r: Self)
        ensures
            r.load_history@.len() == 0,
            r.load_history_size == 5,
            r.load_trend == 0,
            r.wf(),
    {
        Self::new()
    }
}

} // verus!
