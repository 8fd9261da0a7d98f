//! Frequency table and current operating point of the GPU.
//!
//! The table is an ascending list of supported frequencies (kHz) together
//! with per-frequency voltage and DDR-OPP maps. Lookups clamp out-of-range
//! indices, find neighbours by order, and snap a requested frequency to the
//! nearest supported one; the write path is produced as a [`WritePlan`]
//! whose shape depends on the driver generation.

use std::collections::HashMap;
use vstd::prelude::*;

use crate::control::{CtlFile, CtlValue, WritePlan, WriteStep};

verus! {

broadcast use vstd::std_specs::hash::group_hash_axioms;

/// Non-strictly ascending order.
pub open spec fn sorted_ascending(s: Seq<i64>) -> bool {
    forall|i: int, j: int| 0 <= i < j < s.len() ==> s[i] <= s[j]
}

/// Distance between two mathematical integers.
pub open spec fn dist(a: int, b: int) -> int {
    if a >= b {
        a - b
    } else {
        b - a
    }
}

/// Whether candidate `a` is strictly preferred over `b` when snapping to
/// `target`: closer in absolute distance, or equally close but lower.
pub open spec fn closer_to(target: int, a: i64, b: i64) -> bool {
    ||| dist(a as int, target) < dist(b as int, target)
    ||| (dist(a as int, target) == dist(b as int, target) && a < b)
}

/// The element of `s` with minimal absolute distance to `target`;
/// of two equally distant candidates the lower one wins.
pub open spec fn closest_in(s: Seq<i64>, target: int) -> i64
    decreases s.len(),
{
    if s.len() == 0 {
        0
    } else if s.len() == 1 {
        s[0]
    } else {
        let rest = closest_in(s.drop_last(), target);
        let last = s.last();
        if closer_to(target, last, rest) {
            last
        } else {
            rest
        }
    }
}

/// The nearest-match snap picks an element of the set, no other element is
/// strictly closer to the target, and of two equally distant candidates the
/// snap never picks the higher one.
pub proof fn lemma_closest_in_minimal(s: Seq<i64>, target: int)
    requires
        s.len() > 0,
    ensures
        s.contains(closest_in(s, target)),
        forall|i: int|
            0 <= i < s.len() ==> dist(closest_in(s, target) as int, target) <= dist(
                s[i] as int,
                target,
            ),
        forall|i: int|
            0 <= i < s.len() && dist(s[i] as int, target) == dist(
                closest_in(s, target) as int,
                target,
            ) ==> closest_in(s, target) <= s[i],
    decreases s.len(),
{
    if s.len() > 1 {
        lemma_closest_in_minimal(s.drop_last(), target);
        let rest = closest_in(s.drop_last(), target);
        assert(s.drop_last().contains(rest));
        let j = choose|j: int| 0 <= j < s.drop_last().len() && s.drop_last()[j] == rest;
        assert(s[j] == rest);
        assert(forall|i: int| 0 <= i < s.len() - 1 ==> s[i] == s.drop_last()[i]);
    }
}

/// Position of the first occurrence of `v` in `s`, or `s.len()` when `v`
/// does not occur.
pub open spec fn find_first(s: Seq<i64>, v: i64) -> int
    decreases s.len(),
{
    if s.len() == 0 {
        0
    } else if s[0] == v {
        0
    } else {
        1 + find_first(s.drop_first(), v)
    }
}

/// The index the table reports for a frequency: the first occurrence, or
/// zero when the frequency is not in the table.
pub open spec fn spec_freq_index(s: Seq<i64>, v: i64) -> int {
    if s.contains(v) {
        find_first(s, v)
    } else {
        0
    }
}

/// When the first `k` elements all differ from `v`, the first occurrence of
/// `v` lies at `k` exactly when `s[k] == v`.
pub proof fn lemma_find_first_prefix(s: Seq<i64>, v: i64, k: int)
    requires
        0 <= k <= s.len(),
        forall|i: int| 0 <= i < k ==> s[i] != v,
    ensures
        k < s.len() && s[k] == v ==> find_first(s, v) == k && s.contains(v),
        (forall|i: int| 0 <= i < s.len() ==> s[i] != v) ==> !s.contains(v),
    decreases k,
{
    if k > 0 {
        assert(s[0] != v);
        assert(find_first(s, v) == 1 + find_first(s.drop_first(), v));
        assert(forall|i: int| 0 <= i < k - 1 ==> s.drop_first()[i] != v);
        lemma_find_first_prefix(s.drop_first(), v, k - 1);
        assert(k < s.len() ==> s.drop_first()[k - 1] == s[k]);
    }
}

/// The index of the first element of `s` with minimal absolute distance to
/// `target`; zero on an empty sequence.
pub open spec fn closest_idx_in(s: Seq<i64>, target: int) -> int
    decreases s.len(),
{
    if s.len() <= 1 {
        0
    } else {
        let rest = closest_idx_in(s.drop_last(), target);
        if dist(s.last() as int, target) < dist(s[rest] as int, target) {
            s.len() - 1
        } else {
            rest
        }
    }
}

/// The first-minimal index is in range, minimizes the distance, and no
/// earlier index reaches the same distance.
pub proof fn lemma_closest_idx_in_minimal(s: Seq<i64>, target: int)
    requires
        s.len() > 0,
    ensures
        0 <= closest_idx_in(s, target) < s.len(),
        forall|i: int|
            0 <= i < s.len() ==> dist(s[closest_idx_in(s, target)] as int, target) <= dist(
                #[trigger] s[i] as int,
                target,
            ),
        forall|i: int|
            0 <= i < closest_idx_in(s, target) ==> dist(#[trigger] s[i] as int, target) > dist(
                s[closest_idx_in(s, target)] as int,
                target,
            ),
    decreases s.len(),
{
    if s.len() > 1 {
        lemma_closest_idx_in_minimal(s.drop_last(), target);
        assert(forall|i: int| 0 <= i < s.len() - 1 ==> s[i] == s.drop_last()[i]);
    }
}

/// The element of `list` nearest to `target`, ties to the lower value.
pub(crate) fn closest_in_vec(list: &Vec<i64>, target: i64) -> (r: i64)
    requires
        list@.len() > 0,
    ensures
        r == closest_in(list@, target as int),
{
    let n = list.len();
    let mut best: i64 = list[0];
    let mut k: usize = 1;
    while k < n
        invariant
            1 <= k <= n,
            n == list@.len(),
            best == closest_in(list@.take(k as int), target as int),
        decreases n - k,
    {
        let cand = list[k];
        let cand_d: i128 = if cand as i128 >= target as i128 {
            cand as i128 - target as i128
        } else {
            target as i128 - cand as i128
        };
        let best_d: i128 = if best as i128 >= target as i128 {
            best as i128 - target as i128
        } else {
            target as i128 - best as i128
        };
        proof {
            assert(list@.take(k as int + 1).drop_last() =~= list@.take(k as int));
            assert(list@.take(k as int + 1).last() == list@[k as int]);
        }
        if cand_d < best_d || (cand_d == best_d && cand < best) {
            best = cand;
        }
        k += 1;
    }
    proof {
        assert(list@.take(n as int) =~= list@);
    }
    best
}

/// Manager of the GPU frequency table and of the current operating point.
#[derive(Clone, Debug)]
pub struct FrequencyManager {
    /// Supported frequencies in ascending order (kHz).
    pub config_list: Vec<i64>,
    /// Frequency to voltage map (kHz to microvolt).
    pub freq_volt: HashMap<i64, i64>,
    /// Frequency to DDR OPP map.
    pub freq_dram: HashMap<i64, i64>,
    /// Currently selected frequency (kHz).
    pub cur_freq: i64,
    /// Index of the current frequency in the table.
    pub cur_freq_idx: i64,
    /// Currently selected voltage (microvolt).
    pub cur_volt: i64,
    /// Whether the v2 driver generation is in control.
    pub gpuv2: bool,
    /// Frequencies the v2 driver reports as supported.
    pub v2_supported_freqs: Vec<i64>,
}

impl FrequencyManager {
    /// Well-formedness: the table is sorted ascending and small enough for
    /// its indices to be carried in an `i64`.
    pub open spec fn wf(self) -> bool {
        &&& sorted_ascending(self.config_list@)
        &&& self.config_list@.len() < 0x8000_0000_0000_0000
    }

    /// The voltage mapped to `freq`, zero when the map has no entry.
    pub open spec fn spec_volt_of(self, freq: i64) -> i64 {
        if self.freq_volt@.contains_key(freq) {
            self.freq_volt@[freq]
        } else {
            0
        }
    }

    /// The DDR OPP mapped to `freq`, zero when the map has no entry.
    pub open spec fn spec_dram_of(self, freq: i64) -> i64 {
        if self.freq_dram@.contains_key(freq) {
            self.freq_dram@[freq]
        } else {
            0
        }
    }

    /// The table entry at `idx` after clamping the index to the table's
    /// bounds; zero on an empty table.
    pub open spec fn spec_freq_by_index(self, idx: int) -> i64 {
        if self.config_list@.len() == 0 {
            0
        } else if idx < 0 {
            self.config_list@[0]
        } else if idx >= self.config_list@.len() {
            self.config_list@.last()
        } else {
            self.config_list@[idx]
        }
    }

    /// The frequency actually handed to the hardware: on v2 the nearest
    /// kernel-supported frequency, elsewhere the current one.
    pub open spec fn spec_freq_to_use(self) -> i64 {
        if self.v2_supported_freqs@.len() == 0 {
            self.cur_freq
        } else {
            closest_in(self.v2_supported_freqs@, self.cur_freq as int)
        }
    }

    /// The voltage the governor settles on: the exact mapping of the
    /// current frequency when one is present, otherwise the mapping of the
    /// nearest supported frequency.
    pub open spec fn spec_gen_volt(self) -> i64 {
        let original = self.spec_volt_of(self.cur_freq);
        if original > 0 {
            original
        } else {
            self.spec_volt_of(self.spec_freq_to_use())
        }
    }

    pub fn new() -> (r: Self)
        ensures
            r.config_list@ =~= Seq::<i64>::empty(),
            r.freq_volt@ =~= Map::<i64, i64>::empty(),
            r.freq_dram@ =~= Map::<i64, i64>::empty(),
            r.cur_freq == 0,
            r.cur_freq_idx == 0,
            r.cur_volt == 0,
            !r.gpuv2,
            r.v2_supported_freqs@ =~= Seq::<i64>::empty(),
            r.wf(),
    {
        Self {
            config_list: Vec::new(),
            freq_volt: HashMap::new(),
            freq_dram: HashMap::new(),
            cur_freq: 0,
            cur_freq_idx: 0,
            cur_volt: 0,
            gpuv2: false,
            v2_supported_freqs: Vec::new(),
        }
    }

    pub fn get_volt(&self, freq: i64) -> (r: i64)
        ensures
            r == self.spec_volt_of(freq),
    {
        match self.freq_volt.get(&freq) {
            Some(v) => *v,
            None => 0,
        }
    }

    /// Table lookup by index with clamping: out-of-range indices resolve to
    /// the boundary entries.
    pub fn get_freq_by_index(&self, idx: i64) -> (r: i64)
        requires
            self.wf(),
        ensures
            r == self.spec_freq_by_index(idx as int),
    {
        let len = self.config_list.len();
        if len == 0 {
            return 0;
        }
        let unified: usize = if idx < 0 {
            0
        } else if idx >= len as i64 {
            len - 1
        } else {
            idx as usize
        };
        self.config_list[unified]
    }

    /// The least table frequency at or above `freq`; the highest entry when
    /// none qualifies or when `freq` is not positive; zero on an empty table.
    pub fn read_freq_ge(&self, freq: i64) -> (r: i64)
        requires
            self.wf(),
        ensures
            self.config_list@.len() == 0 ==> r == 0,
            self.config_list@.len() > 0 && freq <= 0 ==> r == self.config_list@.last(),
            self.config_list@.len() > 0 && freq > 0 && (exists|i: int|
                0 <= i < self.config_list@.len() && self.config_list@[i] >= freq) ==> {
                &&& self.config_list@.contains(r)
                &&& r >= freq
                &&& forall|i: int|
                    0 <= i < self.config_list@.len() && self.config_list@[i] >= freq
                        ==> r <= self.config_list@[i]
            },
            self.config_list@.len() > 0 && freq > 0 && (forall|i: int|
                0 <= i < self.config_list@.len() ==> self.config_list@[i] < freq) ==> r
                == self.config_list@.last(),
    {
        if self.config_list.len() == 0 {
            return 0;
        }
        if freq <= 0 {
            return self.config_list[self.config_list.len() - 1];
        }
        let mut k: usize = 0;
        while k < self.config_list.len()
            invariant
                self.wf(),
                freq > 0,
                self.config_list@.len() > 0,
                0 <= k <= self.config_list@.len(),
                forall|i: int| 0 <= i < k ==> self.config_list@[i] < freq,
            decreases self.config_list@.len() - k,
        {
            if self.config_list[k] >= freq {
                return self.config_list[k];
            }
            k += 1;
        }
        self.config_list[self.config_list.len() - 1]
    }

    /// The greatest table frequency at or below `freq`; the lowest entry
    /// when none qualifies or when `freq` is not positive; zero on an empty
    /// table.
    pub fn read_freq_le(&self, freq: i64) -> (r: i64)
        requires
            self.wf(),
        ensures
            self.config_list@.len() == 0 ==> r == 0,
            self.config_list@.len() > 0 && freq <= 0 ==> r == self.config_list@[0],
            self.config_list@.len() > 0 && freq > 0 && (exists|i: int|
                0 <= i < self.config_list@.len() && self.config_list@[i] <= freq) ==> {
                &&& self.config_list@.contains(r)
                &&& r <= freq
                &&& forall|i: int|
                    0 <= i < self.config_list@.len() && self.config_list@[i] <= freq
                        ==> r >= self.config_list@[i]
            },
            self.config_list@.len() > 0 && freq > 0 && (forall|i: int|
                0 <= i < self.config_list@.len() ==> self.config_list@[i] > freq) ==> r
                == self.config_list@[0],
    {
        if self.config_list.len() == 0 {
            return 0;
        }
        if freq <= 0 {
            return self.config_list[0];
        }
        let mut k: usize = self.config_list.len();
        while k > 0
            invariant
                self.wf(),
                freq > 0,
                self.config_list@.len() > 0,
                0 <= k <= self.config_list@.len(),
                forall|i: int| k <= i < self.config_list@.len() ==> self.config_list@[i] > freq,
            decreases k,
        {
            k -= 1;
            if self.config_list[k] <= freq {
                return self.config_list[k];
            }
        }
        self.config_list[0]
    }

    /// The index of the first table entry equal to `freq`, zero when the
    /// table has no such entry.
    pub fn read_freq_index(&self, freq: i64) -> (r: i64)
        requires
            self.wf(),
        ensures
            r == spec_freq_index(self.config_list@, freq),
            self.config_list@.contains(freq) ==> {
                &&& 0 <= r < self.config_list@.len()
                &&& self.config_list@[r as int] == freq
                &&& forall|i: int| 0 <= i < r ==> self.config_list@[i] != freq
            },
            !self.config_list@.contains(freq) ==> r == 0,
    {
        let mut k: usize = 0;
        while k < self.config_list.len()
            invariant
                self.wf(),
                0 <= k <= self.config_list@.len(),
                forall|i: int| 0 <= i < k ==> self.config_list@[i] != freq,
            decreases self.config_list@.len() - k,
        {
            if self.config_list[k] == freq {
                proof {
                    lemma_find_first_prefix(self.config_list@, freq, k as int);
                }
                return k as i64;
            }
            k += 1;
        }
        proof {
            lemma_find_first_prefix(self.config_list@, freq, self.config_list@.len() as int);
        }
        0
    }

    /// The highest table frequency, zero on an empty table.
    pub fn get_max_freq(&self) -> (r: i64)
        ensures
            r == if self.config_list@.len() == 0 {
                0i64
            } else {
                self.config_list@.last()
            },
    {
        if self.config_list.len() == 0 {
            0
        } else {
            self.config_list[self.config_list.len() - 1]
        }
    }

    /// The lowest table frequency, zero on an empty table.
    pub fn get_min_freq(&self) -> (r: i64)
        ensures
            r == if self.config_list@.len() == 0 {
                0i64
            } else {
                self.config_list@[0]
            },
    {
        if self.config_list.len() == 0 {
            0
        } else {
            self.config_list[0]
        }
    }

    /// The middle table entry, zero on an empty table.
    pub fn get_middle_freq(&self) -> (r: i64)
        ensures
            r == if self.config_list@.len() == 0 {
                0i64
            } else {
                self.config_list@[self.config_list@.len() as int / 2]
            },
    {
        if self.config_list.len() == 0 {
            return 0;
        }
        let mid: usize = self.config_list.len() / 2;
        self.config_list[mid]
    }

    /// Snap `target_freq` to the nearest frequency the v2 driver supports;
    /// with no supported list loaded the request passes through unchanged.
    /// Of two equally distant candidates the lower one wins.
    pub fn get_closest_v2_supported_freq(&self, target_freq: i64) -> (r: i64)
        ensures
            r == if self.v2_supported_freqs@.len() == 0 {
                target_freq
            } else {
                closest_in(self.v2_supported_freqs@, target_freq as int)
            },
            self.v2_supported_freqs@.len() > 0 ==> {
                &&& self.v2_supported_freqs@.contains(r)
                &&& forall|i: int|
                    0 <= i < self.v2_supported_freqs@.len() ==> dist(r as int, target_freq as int)
                        <= dist(#[trigger] self.v2_supported_freqs@[i] as int, target_freq as int)
                &&& forall|i: int|
                    0 <= i < self.v2_supported_freqs@.len() && dist(
                        #[trigger] self.v2_supported_freqs@[i] as int,
                        target_freq as int,
                    ) == dist(r as int, target_freq as int) ==> r <= self.v2_supported_freqs@[i]
            },
    {
        if self.v2_supported_freqs.len() == 0 {
            return target_freq;
        }
        proof {
            lemma_closest_in_minimal(self.v2_supported_freqs@, target_freq as int);
        }
        closest_in_vec(&self.v2_supported_freqs, target_freq)
    }

    /// Settle the current voltage: prefer the exact mapping of the current
    /// frequency, fall back to the mapping of the nearest supported one.
    pub fn gen_cur_volt(&mut self) -> (r: i64)
        ensures
            *final(self) == (FrequencyManager { cur_volt: old(self).spec_gen_volt(), ..*old(self) }),
            r == old(self).spec_gen_volt(),
    {
        let freq_to_use = self.get_closest_v2_supported_freq(self.cur_freq);
        let original_volt = self.get_volt(self.cur_freq);
        let closest_volt = self.get_volt(freq_to_use);
        self.cur_volt = if original_volt > 0 {
            original_volt
        } else {
            closest_volt
        };
        self.cur_volt
    }

    /// The writes that release the v1 driver back to autonomous DVFS:
    /// clear the OPP override, zero the fixed voltage, re-enable DVFS.
    pub open spec fn plan_v1_idle() -> Seq<WriteStep> {
        seq![
            WriteStep::spec_plain(CtlFile::V1Opp, CtlValue::Single(0)),
            WriteStep::spec_plain(CtlFile::V1Opp, CtlValue::Single(-1i64)),
            WriteStep::spec_plain(CtlFile::V1Volt, CtlValue::Pair(0, 0)),
            WriteStep::spec_plain(CtlFile::DvfsEnable, CtlValue::Single(1)),
        ]
    }

    /// The writes that pin the v1 driver to a fixed operating point:
    /// disable autonomous DVFS, then write the pair, or only the frequency
    /// when no voltage is known.
    pub open spec fn plan_v1_manual(freq: i64, volt: i64) -> Seq<WriteStep> {
        let head = seq![WriteStep::spec_plain(CtlFile::DvfsEnable, CtlValue::Single(0))];
        if volt == 0 {
            head + seq![
                WriteStep::spec_plain(CtlFile::V1Volt, CtlValue::Pair(0, 0)),
                WriteStep::spec_plain(CtlFile::V1Opp, CtlValue::Single(freq)),
            ]
        } else {
            head + seq![
                WriteStep::spec_plain(CtlFile::V1Opp, CtlValue::Single(0)),
                WriteStep::spec_plain(CtlFile::V1Volt, CtlValue::Pair(freq, volt)),
            ]
        }
    }

    /// The writes that release the v2 driver (idle and the DCS fallback
    /// share this path): zero the voltage override, then unlock the OPP
    /// index, falling back to index zero if the unlock value is rejected.
    pub open spec fn plan_v2_release() -> Seq<WriteStep> {
        seq![
            WriteStep::spec_plain(CtlFile::V2Volt, CtlValue::Pair(0, 0)),
            WriteStep {
                file: CtlFile::V2Opp,
                value: CtlValue::Single(-1i64),
                fallback: Some(CtlValue::Single(0)),
                delay_after_ms: 0,
            },
        ]
    }

    /// v2 write when no voltage mapping is known: clear the voltage
    /// override and hand the raw frequency to the OPP file.
    pub open spec fn plan_v2_no_volt(freq: i64) -> Seq<WriteStep> {
        seq![
            WriteStep::spec_plain(CtlFile::V2Volt, CtlValue::Pair(0, 0)),
            WriteStep::spec_plain(CtlFile::V2Opp, CtlValue::Single(freq)),
        ]
    }

    /// The normal v2 write: clear the override, unlock the OPP index with a
    /// short settling pause, then write the (frequency, voltage) pair.
    pub open spec fn plan_v2_normal(freq: i64, volt: i64) -> Seq<WriteStep> {
        seq![
            WriteStep::spec_plain(CtlFile::V2Volt, CtlValue::Pair(0, 0)),
            WriteStep {
                file: CtlFile::V2Opp,
                value: CtlValue::Single(-1i64),
                fallback: Some(CtlValue::Single(0)),
                delay_after_ms: 10,
            },
            WriteStep::spec_plain(CtlFile::V2Volt, CtlValue::Pair(freq, volt)),
        ]
    }

    /// The write plan for the current operating point, chosen by driver
    /// generation and by the idle / DCS / missing-voltage conditions.
    pub open spec fn spec_write_plan(self, need_dcs: bool, is_idle: bool) -> Seq<WriteStep> {
        let freq_to_use = if self.gpuv2 {
            self.spec_freq_to_use()
        } else {
            self.cur_freq
        };
        if !self.gpuv2 {
            if is_idle {
                Self::plan_v1_idle()
            } else {
                Self::plan_v1_manual(freq_to_use, self.cur_volt)
            }
        } else if is_idle {
            Self::plan_v2_release()
        } else if need_dcs && self.cur_freq_idx == 0 {
            Self::plan_v2_release()
        } else if self.cur_volt == 0 {
            Self::plan_v2_no_volt(freq_to_use)
        } else {
            Self::plan_v2_normal(freq_to_use, self.cur_volt)
        }
    }

    /// Build the write plan that commits the current operating point to the
    /// hardware. The executor skips control files the kernel does not
    /// expose, so a partially capable platform degrades to a no-op.
    pub fn write_freq(&self, need_dcs: bool, is_idle: bool) -> (p: WritePlan)
        ensures
            p.steps@ =~= self.spec_write_plan(need_dcs, is_idle),
    {
        let freq_to_use = if self.gpuv2 {
            self.get_closest_v2_supported_freq(self.cur_freq)
        } else {
            self.cur_freq
        };
        let mut plan = WritePlan::new();
        if !self.gpuv2 {
            if is_idle {
                plan.push(WriteStep::plain(CtlFile::V1Opp, CtlValue::Single(0)));
                plan.push(WriteStep::plain(CtlFile::V1Opp, CtlValue::Single(-1i64)));
                plan.push(WriteStep::plain(CtlFile::V1Volt, CtlValue::Pair(0, 0)));
                plan.push(WriteStep::plain(CtlFile::DvfsEnable, CtlValue::Single(1)));
            } else {
                plan.push(WriteStep::plain(CtlFile::DvfsEnable, CtlValue::Single(0)));
                if self.cur_volt == 0 {
                    plan.push(WriteStep::plain(CtlFile::V1Volt, CtlValue::Pair(0, 0)));
                    plan.push(WriteStep::plain(CtlFile::V1Opp, CtlValue::Single(freq_to_use)));
                } else {
                    plan.push(WriteStep::plain(CtlFile::V1Opp, CtlValue::Single(0)));
                    plan.push(
                        WriteStep::plain(CtlFile::V1Volt, CtlValue::Pair(freq_to_use, self.cur_volt)),
                    );
                }
            }
        } else if is_idle || (need_dcs && self.cur_freq_idx == 0) {
            plan.push(WriteStep::plain(CtlFile::V2Volt, CtlValue::Pair(0, 0)));
            plan.push(
                WriteStep {
                    file: CtlFile::V2Opp,
                    value: CtlValue::Single(-1i64),
                    fallback: Some(CtlValue::Single(0)),
                    delay_after_ms: 0,
                },
            );
        } else if self.cur_volt == 0 {
            plan.push(WriteStep::plain(CtlFile::V2Volt, CtlValue::Pair(0, 0)));
            plan.push(WriteStep::plain(CtlFile::V2Opp, CtlValue::Single(freq_to_use)));
        } else {
            plan.push(WriteStep::plain(CtlFile::V2Volt, CtlValue::Pair(0, 0)));
            plan.push(
                WriteStep {
                    file: CtlFile::V2Opp,
                    value: CtlValue::Single(-1i64),
                    fallback: Some(CtlValue::Single(0)),
                    delay_after_ms: 10,
                },
            );
            plan.push(
                WriteStep::plain(CtlFile::V2Volt, CtlValue::Pair(freq_to_use, self.cur_volt)),
            );
        }
        plan
    }

    pub fn set_config_list(&mut self, config_list: Vec<i64>)
        ensures
            *final(self) == (FrequencyManager { config_list, ..*old(self) }),
    {
        self.config_list = config_list;
    }

    pub fn get_config_list(&self) -> (r: Vec<i64>)
        ensures
            r@ == self.config_list@,
    {
        self.config_list.clone()
    }

    pub fn replace_freq_volt_tab(&mut self, tab: HashMap<i64, i64>)
        ensures
            *final(self) == (FrequencyManager { freq_volt: tab, ..*old(self) }),
    {
        self.freq_volt = tab;
    }

    pub fn replace_freq_dram_tab(&mut self, tab: HashMap<i64, i64>)
        ensures
            *final(self) == (FrequencyManager { freq_dram: tab, ..*old(self) }),
    {
        self.freq_dram = tab;
    }

    pub fn read_freq_volt(&self, freq: i64) -> (r: i64)
        ensures
            r == self.spec_volt_of(freq),
    {
        match self.freq_volt.get(&freq) {
            Some(v) => *v,
            None => 0,
        }
    }

    pub fn read_freq_dram(&self, freq: i64) -> (r: i64)
        ensures
            r == self.spec_dram_of(freq),
    {
        match self.freq_dram.get(&freq) {
            Some(v) => *v,
            None => 0,
        }
    }
}

impl Default for FrequencyManager {
    fn default() -> (r: Self)
        ensures
            r.config_list@.len() == 0,
            r.cur_freq == 0,
            !r.gpuv2,
            r.wf(),
    {
        Self::new()
    }
}

} // verus!
