//! The per-tick transition of the control loop, in two phases.
//!
//! A tick first records the observation ([`FrequencyAdjustmentEngine::record_sample`]):
//! the current frequency is refreshed from the hardware's own report, the
//! load sample enters the history window, the trend is reclassified and the
//! adaptive sampling interval is recomputed. The decision phase
//! ([`FrequencyAdjustmentEngine::adjust_frequency`]) then either performs
//! the idle release, keeps the frequency, skips a too-soon change
//! (debounce), or applies a new operating point. Both phases are pure state
//! transitions: all hardware writes and sleeps are returned as a
//! [`TickAction`] that the unverified front end executes.

use vstd::prelude::*;

use crate::analyzer::{trend_of, LoadAnalyzer};
use crate::control::{WritePlan, WriteStep};
use crate::ddr::DDR_HIGHEST_FREQ;
use crate::frequency_manager::{
    closest_idx_in, closest_in, closest_in_vec, dist, spec_freq_index, FrequencyManager,
};
use crate::gpu::{TabType, GPU};
use crate::idle::IdleManager;
use crate::strategy::FrequencyStrategy;

verus! {

/// Margin bonus added while the gaming bundle is active (percent points).
pub const GAMING_MARGIN_BONUS: i64 = 5;

/// Margin adjustment for a rising or falling load trend (percent points).
pub const TREND_MARGIN_ADJUST: i64 = 3;

/// Idle sleep when the hardware offers a precise load counter (ms).
pub const IDLE_SLEEP_PRECISE_MS: u64 = 160;

/// Idle sleep without a precise load counter (ms); longer, since samples
/// carry less information.
pub const IDLE_SLEEP_NORMAL_MS: u64 = 200;

/// What the front end must do after a decision.
#[derive(Debug)]
pub enum TickAction {
    /// The GPU is idle: perform the release write, sleep, restart the tick.
    Idle { plan: WritePlan, sleep_ms: u64 },
    /// The target equals the current frequency: nothing to write.
    NoChange { sleep_ms: u64 },
    /// A change was due but its debounce delay has not elapsed.
    Debounced { sleep_ms: u64 },
    /// A new operating point was selected: perform the writes.
    Applied { plan: WritePlan, ddr: Option<WriteStep>, sleep_ms: u64 },
}

/// Margin adjustment for a trend: rising adds, falling subtracts.
pub open spec fn spec_trend_adjust(trend: i32) -> int {
    if trend == 1 {
        TREND_MARGIN_ADJUST as int
    } else if trend == -1 {
        -(TREND_MARGIN_ADJUST as int)
    } else {
        0
    }
}

/// The effective margin: the bundle's base margin, plus the gaming bonus
/// when the gaming bundle is active, plus the trend adjustment.
pub open spec fn spec_effective_margin(g: GPU) -> int {
    g.frequency_strategy.margin as int + if g.gaming_mode {
        GAMING_MARGIN_BONUS as int
    } else {
        0
    } + spec_trend_adjust(g.load_analyzer.load_trend)
}

/// The raw frequency target: `now_freq * (util + margin) / 100`, and zero
/// whenever the current frequency or the boosted load is not positive.
pub open spec fn spec_raw_target(now_freq: int, util: int, margin: int) -> int {
    if now_freq <= 0 || util + margin <= 0 {
        0
    } else {
        now_freq * (util + margin) / 100
    }
}

pub open spec fn spec_clamp(v: int, lo: int, hi: int) -> int {
    if v < lo {
        lo
    } else if v > hi {
        hi
    } else {
        v
    }
}

/// The raw target of this decision, clamped to the table's range.
pub open spec fn spec_clamped_target(g: GPU, load: i32) -> int {
    let raw = spec_raw_target(
        g.frequency_manager.cur_freq as int,
        load as int,
        spec_effective_margin(g),
    );
    let list = g.frequency_manager.config_list@;
    if list.len() == 0 {
        spec_clamp(raw, 0, 0)
    } else {
        spec_clamp(raw, list[0] as int, list.last() as int)
    }
}

/// The table index the clamped target snaps to.
pub open spec fn spec_snap_idx(g: GPU, load: i32) -> int {
    closest_idx_in(g.frequency_manager.config_list@, spec_clamped_target(g, load))
}

/// The final target frequency: the clamped raw target snapped to the
/// nearest table entry, and on the v2 driver with a known supported subset
/// additionally snapped to the nearest supported frequency.
pub open spec fn spec_target_freq(g: GPU, load: i32) -> i64 {
    let list = g.frequency_manager.config_list@;
    let snapped = if list.len() == 0 {
        0i64
    } else {
        list[spec_snap_idx(g, load)]
    };
    if g.gpuv2 && g.v2_supported_freqs@.len() > 0 {
        closest_in(g.v2_supported_freqs@, snapped as int)
    } else {
        snapped
    }
}

pub open spec fn spec_idle_sleep(precise: bool) -> u64 {
    if precise {
        IDLE_SLEEP_PRECISE_MS
    } else {
        IDLE_SLEEP_NORMAL_MS
    }
}

/// The sampling sleep after a decision: skipped entirely in precise mode.
pub open spec fn spec_sampling_sleep(g: GPU) -> u64 {
    if g.precise {
        0u64
    } else {
        g.frequency_strategy.sampling_interval
    }
}

/// The current frequency after the hardware refresh: the hardware's answer
/// when it reads positive, the previous value otherwise.
pub open spec fn spec_refreshed_freq(g: GPU, hw_freq: i64) -> i64 {
    if hw_freq > 0 {
        hw_freq
    } else {
        g.frequency_manager.cur_freq
    }
}

/// The table index after the hardware refresh.
pub open spec fn spec_refreshed_idx(g: GPU, hw_freq: i64) -> int {
    if hw_freq > 0 {
        spec_freq_index(g.frequency_manager.config_list@, hw_freq)
    } else {
        g.frequency_manager.cur_freq_idx as int
    }
}

/// The frequency adjustment engine: one verified transition per phase.
pub struct FrequencyAdjustmentEngine;

impl FrequencyAdjustmentEngine {
    /// Observation phase of a tick: trust the hardware's report of the
    /// current frequency over the last write, record the load sample and
    /// reclassify the trend, and recompute the adaptive sampling interval
    /// from the magnitude of the load swing. No decision is made here.
    pub fn record_sample(gpu: &mut GPU, load: i32, hw_freq: i64)
        requires
            old(gpu).wf(),
        ensures
            final(gpu).wf(),
            final(gpu).frequency_manager.cur_freq == spec_refreshed_freq(*old(gpu), hw_freq),
            final(gpu).frequency_manager.cur_freq_idx == spec_refreshed_idx(*old(gpu), hw_freq),
            final(gpu).load_analyzer.load_history@ == old(gpu).load_analyzer.spec_history_after(
                load,
            ),
            final(gpu).load_analyzer.load_trend == trend_of(final(gpu).load_analyzer.load_history@),
            final(gpu).frequency_strategy.sampling_interval == if old(
                gpu,
            ).adaptive_sampling_enabled {
                GPU::spec_adaptive_interval(
                    old(gpu).min_adaptive_interval,
                    old(gpu).max_adaptive_interval,
                    dist(load as int, old(gpu).last_load as int),
                    old(gpu).gaming_mode,
                ) as u64
            } else {
                old(gpu).frequency_strategy.sampling_interval
            },
            *final(gpu) == (GPU {
                frequency_manager: (FrequencyManager {
                    cur_freq: final(gpu).frequency_manager.cur_freq,
                    cur_freq_idx: final(gpu).frequency_manager.cur_freq_idx,
                    ..old(gpu).frequency_manager
                }),
                load_analyzer: (LoadAnalyzer {
                    load_history: final(gpu).load_analyzer.load_history,
                    load_trend: final(gpu).load_analyzer.load_trend,
                    ..old(gpu).load_analyzer
                }),
                frequency_strategy: (FrequencyStrategy {
                    sampling_interval: final(gpu).frequency_strategy.sampling_interval,
                    ..old(gpu).frequency_strategy
                }),
                last_load: if old(gpu).adaptive_sampling_enabled {
                    load
                } else {
                    old(gpu).last_load
                },
                ..*old(gpu)
            }),
    {
        if hw_freq > 0 {
            let idx = gpu.frequency_manager.read_freq_index(hw_freq);
            gpu.frequency_manager.cur_freq = hw_freq;
            gpu.frequency_manager.cur_freq_idx = idx;
        }
        gpu.load_analyzer.update_load_history(load);
        gpu.adjust_sampling_interval_by_load(load);
    }

    /// Decision phase of a tick, on the state the observation phase left.
    ///
    /// At or below the idle threshold the hardware is released and an idle
    /// sleep requested; no frequency decision is made. Otherwise the
    /// margin-boosted target is computed, clamped and snapped; an unchanged
    /// target keeps the state untouched, a change attempted before the
    /// direction's debounce delay has elapsed is skipped with the state
    /// untouched, and an overdue change commits the target, its voltage and
    /// the DCS flag, couples the DDR OPP in gaming mode, resets the zone
    /// counter and stamps the adjustment time.
    #[verifier::rlimit(100)]
    pub fn adjust_frequency(gpu: &mut GPU, load: i32, now: u64) -> (action: TickAction)
        requires
            old(gpu).wf(),
            old(gpu).frequency_strategy.last_adjustment_time <= now,
        ensures
            final(gpu).wf(),
            ({
                let g = *old(gpu);
                let g1 = *final(gpu);
                let target = spec_target_freq(g, load);
                let delay = if target > g.frequency_manager.cur_freq {
                    g.frequency_strategy.up_debounce_time
                } else {
                    g.frequency_strategy.down_debounce_time
                };
                if load <= g.idle_manager.idle_threshold {
                    &&& g1 == (GPU {
                        idle_manager: (IdleManager { is_idle: true, ..g.idle_manager }),
                        ..g
                    })
                    &&& (action matches TickAction::Idle { plan, sleep_ms }
                        && plan.steps@ =~= g.frequency_manager.spec_write_plan(false, true)
                        && sleep_ms == spec_idle_sleep(g.precise))
                } else if target == g.frequency_manager.cur_freq {
                    &&& g1 == g
                    &&& (action matches TickAction::NoChange { sleep_ms } && sleep_ms
                        == spec_sampling_sleep(g))
                } else if now - g.frequency_strategy.last_adjustment_time < delay {
                    &&& g1 == g
                    &&& (action matches TickAction::Debounced { sleep_ms } && sleep_ms
                        == spec_sampling_sleep(g))
                } else {
                    let min_freq = if g.frequency_manager.config_list@.len() == 0 {
                        0i64
                    } else {
                        g.frequency_manager.config_list@[0]
                    };
                    let mapped = g.frequency_manager.spec_dram_of(target);
                    let couples_ddr = g.gaming_mode && (mapped > 0 || mapped == DDR_HIGHEST_FREQ);
                    &&& g1.frequency_manager.cur_freq == target
                    &&& g1.frequency_manager.cur_freq_idx == spec_snap_idx(g, load)
                    &&& g1.frequency_manager.cur_volt == (FrequencyManager {
                        cur_freq: target,
                        ..g.frequency_manager
                    }).spec_gen_volt()
                    &&& g1.need_dcs == (g.dcs_enable && g.gpuv2 && target < min_freq)
                    &&& (if couples_ddr {
                        &&& g1.ddr_manager.ddr_freq_fixed == g.ddr_manager.spec_state_after_set(
                            mapped,
                        ).0
                        &&& g1.ddr_manager.ddr_freq == g.ddr_manager.spec_state_after_set(mapped).1
                        &&& g1.ddr_manager.gpuv2 == g.ddr_manager.gpuv2
                        &&& g1.ddr_manager.ddr_v2_supported_freqs@
                            == g.ddr_manager.ddr_v2_supported_freqs@
                    } else {
                        g1.ddr_manager == g.ddr_manager
                    })
                    &&& g1 == (GPU {
                        frequency_manager: (FrequencyManager {
                            cur_freq: g1.frequency_manager.cur_freq,
                            cur_freq_idx: g1.frequency_manager.cur_freq_idx,
                            cur_volt: g1.frequency_manager.cur_volt,
                            ..g.frequency_manager
                        }),
                        need_dcs: g1.need_dcs,
                        idle_manager: (IdleManager { is_idle: false, ..g.idle_manager }),
                        load_analyzer: (LoadAnalyzer {
                            load_zone_counter: 0i32,
                            ..g.load_analyzer
                        }),
                        frequency_strategy: (FrequencyStrategy {
                            last_adjustment_time: now,
                            ..g.frequency_strategy
                        }),
                        ddr_manager: g1.ddr_manager,
                        ..g
                    })
                    &&& (action matches TickAction::Applied { plan, ddr, sleep_ms }
                        && plan.steps@ =~= g1.frequency_manager.spec_write_plan(g1.need_dcs, false)
                        && ddr == (if couples_ddr {
                        Some(g1.ddr_manager.spec_ddr_write_step())
                    } else {
                        Option::<WriteStep>::None
                    }) && sleep_ms == spec_sampling_sleep(g))
                }
            }),
    {
        // Idle: release the hardware and rest; no decision is made.
        if load <= gpu.idle_manager.idle_threshold {
            let plan = gpu.frequency_manager.write_freq(false, true);
            gpu.idle_manager.set_idle(true);
            let sleep_ms = if gpu.precise {
                IDLE_SLEEP_PRECISE_MS
            } else {
                IDLE_SLEEP_NORMAL_MS
            };
            return TickAction::Idle { plan, sleep_ms };
        }

        // Margin-boosted raw target, clamped to the table's range.
        let margin: i64 = gpu.frequency_strategy.margin as i64 + if gpu.gaming_mode {
            GAMING_MARGIN_BONUS
        } else {
            0
        } + if gpu.load_analyzer.load_trend == 1 {
            TREND_MARGIN_ADJUST
        } else if gpu.load_analyzer.load_trend == -1 {
            -TREND_MARGIN_ADJUST
        } else {
            0
        };
        let cur_freq = gpu.frequency_manager.cur_freq;
        let lm: i64 = load as i64 + margin;
        let raw: i128 = if cur_freq <= 0 || lm <= 0 {
            0
        } else {
            proof {
                assert(0 <= (cur_freq as int) * (lm as int) <= 0x8000000000000000int
                    * 0x800000000int) by (nonlinear_arith)
                    requires
                        0 <= cur_freq as int <= 0x8000000000000000int,
                        0 <= lm as int <= 0x800000000int,
                ;
            }
            (cur_freq as i128) * (lm as i128) / 100
        };
        let min_freq = gpu.frequency_manager.get_min_freq();
        let max_freq = gpu.frequency_manager.get_max_freq();
        let clamped: i64 = if raw < min_freq as i128 {
            min_freq
        } else if raw > max_freq as i128 {
            max_freq
        } else {
            raw as i64
        };

        // Snap to the table, then on v2 to the supported subset.
        let snap_idx = gpu.find_closest_freq_index(clamped);
        let table_snapped = gpu.get_freq_by_index(snap_idx);
        let target = if gpu.gpuv2 && gpu.v2_supported_freqs.len() > 0 {
            closest_in_vec(&gpu.v2_supported_freqs, table_snapped)
        } else {
            table_snapped
        };

        let sleep_ms = if gpu.precise {
            0
        } else {
            gpu.frequency_strategy.get_sampling_interval()
        };

        if target == cur_freq {
            return TickAction::NoChange { sleep_ms };
        }

        // Debounce: a too-soon change in the same direction is skipped.
        let delay = if target > cur_freq {
            gpu.frequency_strategy.up_debounce_time
        } else {
            gpu.frequency_strategy.down_debounce_time
        };
        if now - gpu.frequency_strategy.last_adjustment_time < delay {
            return TickAction::Debounced { sleep_ms };
        }

        // Apply the change: operating point, voltage, DCS flag, write plan.
        gpu.frequency_manager.cur_freq = target;
        gpu.frequency_manager.cur_freq_idx = snap_idx;
        gpu.need_dcs = gpu.dcs_enable && gpu.gpuv2 && target < min_freq;
        gpu.frequency_manager.gen_cur_volt();
        gpu.idle_manager.set_idle(false);
        let plan = gpu.frequency_manager.write_freq(gpu.need_dcs, false);

        // In gaming mode the DDR OPP follows the table's column.
        let ddr: Option<WriteStep> = if gpu.is_gaming_mode() {
            let mapped = gpu.read_tab(TabType::FreqDram, target);
            if mapped > 0 || mapped == DDR_HIGHEST_FREQ {
                Some(gpu.ddr_manager.set_ddr_freq(mapped))
            } else {
                None
            }
        } else {
            None
        };

        gpu.load_analyzer.reset_load_zone_counter();
        gpu.frequency_strategy.update_last_adjustment_time(now);
        TickAction::Applied { plan, ddr, sleep_ms }
    }

    /// The raw frequency target before clamping and snapping:
    /// `now_freq * (util + margin) / 100`.
    pub fn compute_raw_target(now_freq: i64, util: i64, margin: i64) -> (r: i64)
        requires
            0 <= now_freq < 0x400000000000,
            util + margin <= 0x100000,
        ensures
            r == spec_raw_target(now_freq as int, util as int, margin as int),
    {
        let lm: i64 = if util <= 0 && margin <= 0 {
            -1
        } else {
            util + margin
        };
        if now_freq <= 0 || lm <= 0 {
            return 0;
        }
        proof {
            assert(0 <= (now_freq as int) * (lm as int) <= 0x400000000000int * 0x100000int)
                by (nonlinear_arith)
                requires
                    0 <= now_freq as int <= 0x400000000000int,
                    0 <= lm as int <= 0x100000int,
            ;
            assert((now_freq as int) * (lm as int) / 100 <= 0x400000000000int * 0x100000int / 100);
        }
        ((now_freq as i128) * (lm as i128) / 100) as i64
    }
}

} // verus!
