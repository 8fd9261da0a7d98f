//! The governor's aggregate state: frequency table and operating point,
//! strategy bundle, DDR coupling, idle state, load history, driver
//! generation flags and the mode bookkeeping, with the operations the
//! control loop and the watchers use.

use std::collections::HashMap;
use vstd::prelude::*;

use crate::analyzer::LoadAnalyzer;
use crate::control::WriteStep;
use crate::ddr::{DdrManager, DDR_AUTO_MODE_V2, DDR_HIGHEST_FREQ};
use crate::frequency_manager::{closest_idx_in, dist, FrequencyManager};
use crate::idle::IdleManager;
use crate::strategy::FrequencyStrategy;

verus! {

/// Which per-frequency map a table operation addresses.
#[derive(Clone, Copy, Debug, PartialEq, Eq, Structural)]
pub enum TabType {
    FreqVolt,
    FreqDram,
}

/// Aggregate state of the governor.
#[derive(Clone, Debug)]
pub struct GPU {
    /// Frequency table and current operating point.
    pub frequency_manager: FrequencyManager,
    /// Active strategy bundle.
    pub frequency_strategy: FrequencyStrategy,
    /// Memory frequency coupling.
    pub ddr_manager: DdrManager,
    /// Idle flag and threshold.
    pub idle_manager: IdleManager,
    /// Recent load samples and their trend.
    pub load_analyzer: LoadAnalyzer,
    /// Whether the v2 driver generation was detected.
    pub gpuv2: bool,
    /// Frequencies the v2 driver reports as supported.
    pub v2_supported_freqs: Vec<i64>,
    /// Whether the DCS fallback path is enabled.
    pub dcs_enable: bool,
    /// Whether the next write should route through the DCS path.
    pub need_dcs: bool,
    /// Whether the gaming policy bundle is active.
    pub gaming_mode: bool,
    /// Whether the hardware offers a precise delta-based load counter.
    pub precise: bool,
    /// Name of the mode whose bundle is active.
    pub current_mode: String,
    /// Whether the sampling interval adapts to load swings.
    pub adaptive_sampling_enabled: bool,
    /// Lower bound of the adaptive sampling interval (ms).
    pub min_adaptive_interval: u64,
    /// Upper bound of the adaptive sampling interval (ms).
    pub max_adaptive_interval: u64,
    /// The previous load sample, for the adaptive interval.
    pub last_load: i32,
}

impl GPU {
    /// Well-formedness of the aggregate: the table is sorted, the history
    /// window is bounded, and the adaptive bounds are ordered.
    pub open spec fn wf(self) -> bool {
        &&& self.frequency_manager.wf()
        &&& self.load_analyzer.wf()
        &&& self.min_adaptive_interval <= self.max_adaptive_interval
    }

    pub fn new() -> (r: Self)
        ensures
            r.frequency_manager.config_list@.len() == 0,
            r.frequency_manager.cur_freq == 0,
            r.frequency_strategy == (FrequencyStrategy {
                up_debounce_time: 500u64,
                down_debounce_time: 500u64,
                margin: 50u32,
                down_counter_threshold: 0u32,
                aggressive_down: true,
                sampling_interval: 8u64,
                last_adjustment_time: 0u64,
            }),
            !r.ddr_manager.ddr_freq_fixed,
            !r.idle_manager.is_idle,
            r.idle_manager.idle_threshold == crate::idle::IDLE_THRESHOLD,
            r.load_analyzer.load_history@.len() == 0,
            !r.gpuv2,
            r.v2_supported_freqs@.len() == 0,
            !r.dcs_enable,
            !r.need_dcs,
            !r.gaming_mode,
            !r.precise,
            r.current_mode@ == Seq::<char>::empty(),
            !r.adaptive_sampling_enabled,
            r.min_adaptive_interval == 2,
            r.max_adaptive_interval == 20,
            r.last_load == 0,
            r.wf(),
    {
        Self {
            frequency_manager: FrequencyManager::new(),
            frequency_strategy: FrequencyStrategy::new(500, 500),
            ddr_manager: DdrManager::new(),
            idle_manager: IdleManager::new(),
            load_analyzer: LoadAnalyzer::new(),
            gpuv2: false,
            v2_supported_freqs: Vec::new(),
            dcs_enable: false,
            need_dcs: false,
            gaming_mode: false,
            precise: false,
            current_mode: String::new(),
            adaptive_sampling_enabled: false,
            min_adaptive_interval: 2,
            max_adaptive_interval: 20,
            last_load: 0,
        }
    }

    pub fn get_cur_freq(&self) -> (r: i64)
        ensures
            r == self.frequency_manager.cur_freq,
    {
        self.frequency_manager.cur_freq
    }

    pub fn set_cur_freq(&mut self, cur_freq: i64)
        ensures
            final(self).frequency_manager == (FrequencyManager {
                cur_freq,
                ..old(self).frequency_manager
            }),
            *final(self) == (GPU { frequency_manager: final(self).frequency_manager, ..*old(self) }),
    {
        self.frequency_manager.cur_freq = cur_freq;
    }

    pub fn frequency(&self) -> (r: &FrequencyManager)
        ensures
            r == &self.frequency_manager,
    {
        &self.frequency_manager
    }

    pub fn frequency_mut(&mut self) -> (r: &mut FrequencyManager)
        ensures
            *r == old(self).frequency_manager,
            *final(self) == (GPU { frequency_manager: *final(r), ..*old(self) }),
    {
        &mut self.frequency_manager
    }

    pub fn get_max_freq(&self) -> (r: i64)
        ensures
            r == if self.frequency_manager.config_list@.len() == 0 {
                0i64
            } else {
                self.frequency_manager.config_list@.last()
            },
    {
        self.frequency_manager.get_max_freq()
    }

    pub fn get_min_freq(&self) -> (r: i64)
        ensures
            r == if self.frequency_manager.config_list@.len() == 0 {
                0i64
            } else {
                self.frequency_manager.config_list@[0]
            },
    {
        self.frequency_manager.get_min_freq()
    }

    pub fn frequency_strategy_mut(&mut self) -> (r: &mut FrequencyStrategy)
        ensures
            *r == old(self).frequency_strategy,
            *final(self) == (GPU { frequency_strategy: *final(r), ..*old(self) }),
    {
        &mut self.frequency_strategy
    }

    pub fn ddr_manager(&self) -> (r: &DdrManager)
        ensures
            r == &self.ddr_manager,
    {
        &self.ddr_manager
    }

    pub fn ddr_manager_mut(&mut self) -> (r: &mut DdrManager)
        ensures
            *r == old(self).ddr_manager,
            *final(self) == (GPU { ddr_manager: *final(r), ..*old(self) }),
    {
        &mut self.ddr_manager
    }

    pub fn idle_manager_mut(&mut self) -> (r: &mut IdleManager)
        ensures
            *r == old(self).idle_manager,
            *final(self) == (GPU { idle_manager: *final(r), ..*old(self) }),
    {
        &mut self.idle_manager
    }

    pub fn is_dcs_enabled(&self) -> (r: bool)
        ensures
            r == self.dcs_enable,
    {
        self.dcs_enable
    }

    pub fn set_dcs_enable(&mut self, dcs_enable: bool)
        ensures
            *final(self) == (GPU { dcs_enable, ..*old(self) }),
    {
        self.dcs_enable = dcs_enable;
    }

    pub fn is_gaming_mode(&self) -> (r: bool)
        ensures
            r == self.gaming_mode,
    {
        self.gaming_mode
    }

    /// The frequency whose DDR-OPP column drives the memory coupling when
    /// gaming mode is switched on: the current frequency when set, else
    /// the first table entry, else zero.
    pub open spec fn spec_gaming_freq_to_use(self) -> i64 {
        if self.frequency_manager.cur_freq > 0 {
            self.frequency_manager.cur_freq
        } else if self.frequency_manager.config_list@.len() > 0 {
            self.frequency_manager.config_list@[0]
        } else {
            0
        }
    }

    /// The DDR OPP requested when gaming mode is switched on: the table's
    /// mapping of the chosen frequency when it names a tier, else the auto
    /// sentinel.
    pub open spec fn spec_gaming_ddr_opp(self) -> i64 {
        let freq_to_use = self.spec_gaming_freq_to_use();
        if freq_to_use > 0 {
            let mapped = self.frequency_manager.spec_dram_of(freq_to_use);
            if mapped > 0 || mapped == DDR_HIGHEST_FREQ {
                mapped
            } else {
                DDR_AUTO_MODE_V2
            }
        } else {
            DDR_AUTO_MODE_V2
        }
    }

    /// Toggle gaming mode. Entering it couples the memory frequency to the
    /// table's DDR-OPP column for the active frequency; leaving it releases
    /// a pinned memory frequency back to auto mode. The returned step, when
    /// present, commits the DDR change.
    pub fn set_gaming_mode(&mut self, gaming_mode: bool) -> (step: Option<WriteStep>)
        ensures
            final(self).gaming_mode == gaming_mode,
            gaming_mode ==> {
                &&& final(self).ddr_manager == (DdrManager {
                    ddr_freq_fixed: old(self).ddr_manager.spec_state_after_set(
                        old(self).spec_gaming_ddr_opp(),
                    ).0,
                    ddr_freq: old(self).ddr_manager.spec_state_after_set(
                        old(self).spec_gaming_ddr_opp(),
                    ).1,
                    ..old(self).ddr_manager
                })
                &&& step == Some(final(self).ddr_manager.spec_ddr_write_step())
            },
            !gaming_mode && old(self).ddr_manager.ddr_freq_fixed ==> {
                &&& final(self).ddr_manager == (DdrManager {
                    ddr_freq_fixed: false,
                    ddr_freq: crate::ddr::spec_ddr_auto_value(old(self).ddr_manager.gpuv2),
                    ..old(self).ddr_manager
                })
                &&& step == Some(final(self).ddr_manager.spec_ddr_write_step())
            },
            !gaming_mode && !old(self).ddr_manager.ddr_freq_fixed ==> {
                &&& final(self).ddr_manager == old(self).ddr_manager
                &&& step is None
            },
            *final(self) == (GPU {
                gaming_mode,
                ddr_manager: final(self).ddr_manager,
                ..*old(self)
            }),
    {
        self.gaming_mode = gaming_mode;
        if gaming_mode {
            let cur = self.frequency_manager.cur_freq;
            let freq_to_use = if cur > 0 {
                cur
            } else if self.frequency_manager.config_list.len() > 0 {
                self.frequency_manager.config_list[0]
            } else {
                0
            };
            let mut ddr_opp = DDR_AUTO_MODE_V2;
            if freq_to_use > 0 {
                let mapped = self.frequency_manager.read_freq_dram(freq_to_use);
                if mapped > 0 || mapped == DDR_HIGHEST_FREQ {
                    ddr_opp = mapped;
                }
            }
            Some(self.ddr_manager.set_ddr_freq(ddr_opp))
        } else if self.ddr_manager.is_ddr_freq_fixed() {
            Some(self.ddr_manager.set_ddr_freq(DDR_AUTO_MODE_V2))
        } else {
            None
        }
    }

    pub fn is_precise(&self) -> (r: bool)
        ensures
            r == self.precise,
    {
        self.precise
    }

    pub fn set_precise(&mut self, precise: bool)
        ensures
            *final(self) == (GPU { precise, ..*old(self) }),
    {
        self.precise = precise;
    }

    pub fn set_current_mode(&mut self, mode: String)
        ensures
            *final(self) == (GPU { current_mode: mode, ..*old(self) }),
    {
        self.current_mode = mode;
    }

    pub fn current_mode(&self) -> (r: &String)
        ensures
            r == &self.current_mode,
    {
        &self.current_mode
    }

    /// Read one of the per-frequency maps; zero when no entry exists.
    pub fn read_tab(&self, tab_type: TabType, freq: i64) -> (r: i64)
        ensures
            r == match tab_type {
                TabType::FreqVolt => self.frequency_manager.spec_volt_of(freq),
                TabType::FreqDram => self.frequency_manager.spec_dram_of(freq),
            },
    {
        match tab_type {
            TabType::FreqVolt => self.frequency_manager.read_freq_volt(freq),
            TabType::FreqDram => self.frequency_manager.read_freq_dram(freq),
        }
    }

    /// Replace one of the per-frequency maps wholesale.
    pub fn replace_tab(&mut self, tab_type: TabType, tab: HashMap<i64, i64>)
        ensures
            final(self).frequency_manager == match tab_type {
                TabType::FreqVolt => (FrequencyManager {
                    freq_volt: tab,
                    ..old(self).frequency_manager
                }),
                TabType::FreqDram => (FrequencyManager {
                    freq_dram: tab,
                    ..old(self).frequency_manager
                }),
            },
            *final(self) == (GPU { frequency_manager: final(self).frequency_manager, ..*old(self) }),
    {
        match tab_type {
            TabType::FreqVolt => self.frequency_manager.replace_freq_volt_tab(tab),
            TabType::FreqDram => self.frequency_manager.replace_freq_dram_tab(tab),
        }
    }

    pub fn is_gpuv2(&self) -> (r: bool)
        ensures
            r == self.gpuv2,
    {
        self.gpuv2
    }

    /// Record the detected driver generation. The flag is mirrored into the
    /// frequency and DDR managers, whose write paths depend on it.
    pub fn set_gpuv2(&mut self, gpuv2: bool)
        ensures
            *final(self) == (GPU {
                gpuv2,
                frequency_manager: (FrequencyManager { gpuv2, ..old(self).frequency_manager }),
                ddr_manager: (DdrManager { gpuv2, ..old(self).ddr_manager }),
                ..*old(self)
            }),
    {
        self.gpuv2 = gpuv2;
        self.frequency_manager.gpuv2 = gpuv2;
        self.ddr_manager.gpuv2 = gpuv2;
    }

    pub fn get_v2_supported_freqs(&self) -> (r: Vec<i64>)
        ensures
            r@ == self.v2_supported_freqs@,
    {
        self.v2_supported_freqs.clone()
    }

    /// Record the frequencies the v2 driver reports as supported. The list
    /// is mirrored into the frequency manager, whose voltage fallback and
    /// v2 write path snap to it.
    pub fn set_v2_supported_freqs(&mut self, freqs: Vec<i64>)
        ensures
            final(self).v2_supported_freqs@ == freqs@,
            final(self).frequency_manager.v2_supported_freqs@ == freqs@,
            *final(self) == (GPU {
                v2_supported_freqs: final(self).v2_supported_freqs,
                frequency_manager: (FrequencyManager {
                    v2_supported_freqs: final(self).frequency_manager.v2_supported_freqs,
                    ..old(self).frequency_manager
                }),
                ..*old(self)
            }),
    {
        self.frequency_manager.v2_supported_freqs = freqs.clone();
        self.v2_supported_freqs = freqs;
    }

    /// Whether the v2 driver accepts `freq`: trivially true off the v2
    /// driver or while no supported list was read.
    pub fn is_freq_supported_by_v2_driver(&self, freq: i64) -> (r: bool)
        ensures
            r == (!self.gpuv2 || self.v2_supported_freqs@.len() == 0
                || self.v2_supported_freqs@.contains(freq)),
    {
        if !self.gpuv2 || self.v2_supported_freqs.len() == 0 {
            return true;
        }
        let mut k: usize = 0;
        while k < self.v2_supported_freqs.len()
            invariant
                0 <= k <= self.v2_supported_freqs@.len(),
                forall|i: int| 0 <= i < k ==> self.v2_supported_freqs@[i] != freq,
            decreases self.v2_supported_freqs@.len() - k,
        {
            if self.v2_supported_freqs[k] == freq {
                return true;
            }
            k += 1;
        }
        false
    }

    /// Table lookup by index with clamping to the boundary entries.
    pub fn get_freq_by_index(&self, idx: i64) -> (r: i64)
        requires
            self.wf(),
        ensures
            r == self.frequency_manager.spec_freq_by_index(idx as int),
    {
        self.frequency_manager.get_freq_by_index(idx)
    }

    pub fn get_middle_freq(&self) -> (r: i64)
        ensures
            r == if self.frequency_manager.config_list@.len() == 0 {
                0i64
            } else {
                self.frequency_manager.config_list@[
                    self.frequency_manager.config_list@.len() as int / 2
                ]
            },
    {
        self.frequency_manager.get_middle_freq()
    }

    pub fn get_config_list(&self) -> (r: Vec<i64>)
        ensures
            r@ == self.frequency_manager.config_list@,
    {
        self.frequency_manager.get_config_list()
    }

    pub fn set_config_list(&mut self, config_list: Vec<i64>)
        ensures
            final(self).frequency_manager == (FrequencyManager {
                config_list,
                ..old(self).frequency_manager
            }),
            *final(self) == (GPU { frequency_manager: final(self).frequency_manager, ..*old(self) }),
    {
        self.frequency_manager.set_config_list(config_list);
    }

    pub fn reset_load_zone_counter(&mut self)
        ensures
            final(self).load_analyzer == (LoadAnalyzer {
                load_zone_counter: 0i32,
                ..old(self).load_analyzer
            }),
            *final(self) == (GPU { load_analyzer: final(self).load_analyzer, ..*old(self) }),
    {
        self.load_analyzer.reset_load_zone_counter();
    }

    pub fn is_idle(&self) -> (r: bool)
        ensures
            r == self.idle_manager.is_idle,
    {
        self.idle_manager.is_idle()
    }

    pub fn get_margin(&self) -> (r: i64)
        ensures
            r == self.frequency_strategy.margin as i64,
    {
        self.frequency_strategy.get_margin() as i64
    }

    pub fn get_down_counter_threshold(&self) -> (r: i64)
        ensures
            r == self.frequency_strategy.down_counter_threshold as i64,
    {
        self.frequency_strategy.get_down_counter_threshold() as i64
    }

    /// Install a strategy bundle in one step.
    pub fn configure_strategy(
        &mut self,
        margin: i64,
        down_counter_threshold: i64,
        sampling_interval: u64,
        aggressive_down: bool,
    )
        requires
            0 <= margin <= u32::MAX,
            0 <= down_counter_threshold <= u32::MAX,
        ensures
            final(self).frequency_strategy == (FrequencyStrategy {
                margin: margin as u32,
                down_counter_threshold: down_counter_threshold as u32,
                sampling_interval,
                aggressive_down,
                ..old(self).frequency_strategy
            }),
            *final(self) == (GPU {
                frequency_strategy: final(self).frequency_strategy,
                ..*old(self)
            }),
    {
        self.frequency_strategy.set_margin(margin as u32);
        self.frequency_strategy.set_down_counter_threshold(down_counter_threshold as u32);
        self.frequency_strategy.set_sampling_interval(sampling_interval);
        self.frequency_strategy.set_aggressive_down(aggressive_down);
    }

    /// Request a DDR OPP; the returned step commits it.
    pub fn set_ddr_freq(&mut self, freq: i64) -> (step: WriteStep)
        ensures
            final(self).ddr_manager.ddr_freq_fixed == old(self).ddr_manager.spec_state_after_set(
                freq,
            ).0,
            final(self).ddr_manager.ddr_freq == old(self).ddr_manager.spec_state_after_set(freq).1,
            final(self).ddr_manager.gpuv2 == old(self).ddr_manager.gpuv2,
            final(self).ddr_manager.ddr_v2_supported_freqs@ == old(
                self,
            ).ddr_manager.ddr_v2_supported_freqs@,
            step == final(self).ddr_manager.spec_ddr_write_step(),
            *final(self) == (GPU { ddr_manager: final(self).ddr_manager, ..*old(self) }),
    {
        self.ddr_manager.set_ddr_freq(freq)
    }

    pub fn is_ddr_freq_fixed(&self) -> (r: bool)
        ensures
            r == self.ddr_manager.ddr_freq_fixed,
    {
        self.ddr_manager.is_ddr_freq_fixed()
    }

    pub fn set_up_rate_delay(&mut self, delay: u64)
        ensures
            final(self).frequency_strategy == (FrequencyStrategy {
                up_debounce_time: delay,
                ..old(self).frequency_strategy
            }),
            *final(self) == (GPU {
                frequency_strategy: final(self).frequency_strategy,
                ..*old(self)
            }),
    {
        self.frequency_strategy.set_up_rate_delay(delay);
    }

    pub fn set_debounce_times(&mut self, up_time: u64, down_time: u64)
        ensures
            final(self).frequency_strategy == (FrequencyStrategy {
                up_debounce_time: up_time,
                down_debounce_time: down_time,
                ..old(self).frequency_strategy
            }),
            *final(self) == (GPU {
                frequency_strategy: final(self).frequency_strategy,
                ..*old(self)
            }),
    {
        self.frequency_strategy.set_debounce_times(up_time, down_time);
    }

    /// Switch adaptive sampling on with its bounds, or off with a fixed
    /// interval. Switching on starts at the minimum interval.
    pub fn set_adaptive_sampling(
        &mut self,
        enabled: bool,
        min_interval: u64,
        max_interval: u64,
        fixed_interval: u64,
    )
        requires
            enabled ==> min_interval <= max_interval,
        ensures
            enabled ==> *final(self) == (GPU {
                frequency_strategy: (FrequencyStrategy {
                    sampling_interval: min_interval,
                    ..old(self).frequency_strategy
                }),
                adaptive_sampling_enabled: true,
                min_adaptive_interval: min_interval,
                max_adaptive_interval: max_interval,
                ..*old(self)
            }),
            !enabled ==> *final(self) == (GPU {
                frequency_strategy: (FrequencyStrategy {
                    sampling_interval: fixed_interval,
                    ..old(self).frequency_strategy
                }),
                adaptive_sampling_enabled: false,
                ..*old(self)
            }),
    {
        if enabled {
            self.frequency_strategy.set_sampling_interval(min_interval);
            self.adaptive_sampling_enabled = true;
            self.min_adaptive_interval = min_interval;
            self.max_adaptive_interval = max_interval;
        } else {
            self.frequency_strategy.set_sampling_interval(fixed_interval);
            self.adaptive_sampling_enabled = false;
        }
    }

    /// The adaptive interval for a load swing of magnitude `diff`: large
    /// swings pin the minimum, steady load the maximum, and the band in
    /// between interpolates linearly. In gaming mode the interval is
    /// halved for faster response, but never below the minimum bound.
    pub open spec fn spec_adaptive_interval(min: u64, max: u64, diff: int, gaming: bool) -> int {
        let base = if diff > 30 {
            min as int
        } else if diff < 5 {
            max as int
        } else {
            let raw = max as int - diff * (max as int - min as int) / 30;
            if raw < min as int {
                min as int
            } else if raw > max as int {
                max as int
            } else {
                raw
            }
        };
        if gaming && base / 2 >= min as int {
            base / 2
        } else if gaming {
            min as int
        } else {
            base
        }
    }

    /// Recompute the sampling interval from the magnitude of the load
    /// change since the previous sample; a no-op while adaptive sampling is
    /// off.
    pub fn adjust_sampling_interval_by_load(&mut self, current_load: i32)
        requires
            old(self).min_adaptive_interval <= old(self).max_adaptive_interval,
        ensures
            !old(self).adaptive_sampling_enabled ==> *final(self) == *old(self),
            old(self).adaptive_sampling_enabled ==> *final(self) == (GPU {
                frequency_strategy: (FrequencyStrategy {
                    sampling_interval: GPU::spec_adaptive_interval(
                        old(self).min_adaptive_interval,
                        old(self).max_adaptive_interval,
                        dist(current_load as int, old(self).last_load as int),
                        old(self).gaming_mode,
                    ) as u64,
                    ..old(self).frequency_strategy
                }),
                last_load: current_load,
                ..*old(self)
            }),
    {
        if !self.adaptive_sampling_enabled {
            return;
        }
        let diff: i64 = if current_load as i64 >= self.last_load as i64 {
            current_load as i64 - self.last_load as i64
        } else {
            self.last_load as i64 - current_load as i64
        };
        let min = self.min_adaptive_interval;
        let max = self.max_adaptive_interval;
        let new_interval: u64 = if diff > 30 {
            min
        } else if diff < 5 {
            max
        } else {
            let range: u64 = max - min;
            proof {
                assert(0 <= (diff as int) * (range as int) <= 30 * 0xffffffffffffffffint)
                    by (nonlinear_arith)
                    requires
                        0 <= diff as int <= 30,
                        0 <= range as int <= 0xffffffffffffffffint,
                ;
                assert((diff as int) * (range as int) / 30 <= range as int) by (nonlinear_arith)
                    requires
                        5 <= diff as int <= 30,
                        range as int >= 0,
                ;
            }
            let scaled: u128 = (diff as u128) * (range as u128) / 30;
            let raw: u64 = max - (scaled as u64);
            if raw < min {
                min
            } else if raw > max {
                max
            } else {
                raw
            }
        };
        // Gaming mode shortens the interval for faster response.
        let new_interval = if self.gaming_mode {
            let halved = new_interval / 2;
            if halved < min {
                min
            } else {
                halved
            }
        } else {
            new_interval
        };
        self.frequency_strategy.set_sampling_interval(new_interval);
        self.last_load = current_load;
    }

    pub fn read_freq_ge(&self, freq: i64) -> (r: i64)
        requires
            self.wf(),
        ensures
            self.frequency_manager.config_list@.len() == 0 ==> r == 0,
            self.frequency_manager.config_list@.len() > 0 && freq <= 0 ==> r
                == self.frequency_manager.config_list@.last(),
            self.frequency_manager.config_list@.len() > 0 && freq > 0 && (exists|i: int|
                0 <= i < self.frequency_manager.config_list@.len()
                    && self.frequency_manager.config_list@[i] >= freq) ==> {
                &&& self.frequency_manager.config_list@.contains(r)
                &&& r >= freq
                &&& forall|i: int|
                    0 <= i < self.frequency_manager.config_list@.len()
                        && self.frequency_manager.config_list@[i] >= freq ==> r
                        <= self.frequency_manager.config_list@[i]
            },
            self.frequency_manager.config_list@.len() > 0 && freq > 0 && (forall|i: int|
                0 <= i < self.frequency_manager.config_list@.len()
                    ==> self.frequency_manager.config_list@[i] < freq) ==> r
                == self.frequency_manager.config_list@.last(),
    {
        self.frequency_manager.read_freq_ge(freq)
    }

    pub fn read_freq_le(&self, freq: i64) -> (r: i64)
        requires
            self.wf(),
        ensures
            self.frequency_manager.config_list@.len() == 0 ==> r == 0,
            self.frequency_manager.config_list@.len() > 0 && freq <= 0 ==> r
                == self.frequency_manager.config_list@[0],
            self.frequency_manager.config_list@.len() > 0 && freq > 0 && (exists|i: int|
                0 <= i < self.frequency_manager.config_list@.len()
                    && self.frequency_manager.config_list@[i] <= freq) ==> {
                &&& self.frequency_manager.config_list@.contains(r)
                &&& r <= freq
                &&& forall|i: int|
                    0 <= i < self.frequency_manager.config_list@.len()
                        && self.frequency_manager.config_list@[i] <= freq ==> r
                        >= self.frequency_manager.config_list@[i]
            },
            self.frequency_manager.config_list@.len() > 0 && freq > 0 && (forall|i: int|
                0 <= i < self.frequency_manager.config_list@.len()
                    ==> self.frequency_manager.config_list@[i] > freq) ==> r
                == self.frequency_manager.config_list@[0],
    {
        self.frequency_manager.read_freq_le(freq)
    }

    /// The index of the table entry nearest to `target_freq`: no entry is
    /// strictly closer, and of several equally close entries the first
    /// (lowest-index) one wins. Zero on an empty table.
    pub fn find_closest_freq_index(&self, target_freq: i64) -> (r: i64)
        requires
            self.wf(),
        ensures
            r == closest_idx_in(self.frequency_manager.config_list@, target_freq as int),
            self.frequency_manager.config_list@.len() == 0 ==> r == 0,
            self.frequency_manager.config_list@.len() > 0 ==> {
                &&& 0 <= r < self.frequency_manager.config_list@.len()
                &&& forall|i: int|
                    0 <= i < self.frequency_manager.config_list@.len() ==> dist(
                        self.frequency_manager.config_list@[r as int] as int,
                        target_freq as int,
                    ) <= dist(self.frequency_manager.config_list@[i] as int, target_freq as int)
                &&& forall|i: int|
                    0 <= i < r ==> dist(
                        self.frequency_manager.config_list@[i] as int,
                        target_freq as int,
                    ) > dist(
                        self.frequency_manager.config_list@[r as int] as int,
                        target_freq as int,
                    )
            },
    {
        let list = &self.frequency_manager.config_list;
        if list.len() == 0 {
            return 0;
        }
        let mut best: usize = 0;
        let mut best_d: i128 = if list[0] as i128 >= target_freq as i128 {
            list[0] as i128 - target_freq as i128
        } else {
            target_freq as i128 - list[0] as i128
        };
        let mut k: usize = 1;
        while k < list.len()
            invariant
                self.wf(),
                list == &self.frequency_manager.config_list,
                list@.len() > 0,
                1 <= k <= list@.len(),
                0 <= best < k,
                best as int == closest_idx_in(list@.take(k as int), target_freq as int),
                best_d == dist(list@[best as int] as int, target_freq as int),
            decreases list@.len() - k,
        {
            let d: i128 = if list[k] as i128 >= target_freq as i128 {
                list[k] as i128 - target_freq as i128
            } else {
                target_freq as i128 - list[k] as i128
            };
            proof {
                assert(list@.take(k as int + 1).drop_last() =~= list@.take(k as int));
                assert(list@.take(k as int + 1).last() == list@[k as int]);
            }
            if d < best_d {
                best = k;
                best_d = d;
            }
            k += 1;
        }
        proof {
            assert(list@.take(list@.len() as int) =~= list@);
            crate::frequency_manager::lemma_closest_idx_in_minimal(list@, target_freq as int);
        }
        best as i64
    }
}

impl Default for GPU {
    fn default() -> (r: Self)
        ensures
            r.frequency_manager.config_list@.len() == 0,
            !r.gpuv2,
            !r.gaming_mode,
            r.wf(),
    {
        Self::new()
    }
}

} // verus!
