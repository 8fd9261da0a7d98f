//! The policy configuration: a global mode selector plus one parameter
//! block per mode, the deltas that watcher threads send to the control
//! loop, and the application of either to the governor state.

use vstd::prelude::*;

use crate::control::WriteStep;
use crate::ddr::{spec_ddr_auto_value, DdrManager};
use crate::gpu::GPU;
use crate::idle::IdleManager;
use crate::strategy::FrequencyStrategy;

verus! {

/// The global section of the policy file.
#[derive(Clone, Debug)]
pub struct Global {
    /// Name of the mode whose block is active by default.
    pub mode: String,
    /// Load percentage at or below which a tick is treated as idle.
    pub idle_threshold: i32,
}

/// One mode's parameter block.
#[derive(Clone, Copy, Debug, PartialEq, Eq, Structural)]
pub struct ModeParams {
    /// Percentage headroom added to the load.
    pub margin: i64,
    /// Whether aggressive down-stepping is enabled.
    pub aggressive_down: bool,
    /// Fixed sampling interval (ms), used while adaptive sampling is off.
    pub sampling_interval: u64,
    /// Whether this block activates the gaming bundle.
    pub gaming_mode: bool,
    /// Whether the sampling interval adapts to load swings.
    pub adaptive_sampling: bool,
    /// Lower bound of the adaptive interval (ms).
    pub min_adaptive_interval: u64,
    /// Upper bound of the adaptive interval (ms).
    pub max_adaptive_interval: u64,
    /// Debounce delay for upward changes (ms).
    pub up_rate_delay: u64,
    /// Debounce delay for downward changes (ms).
    pub down_rate_delay: u64,
}

impl ModeParams {
    /// A block the governor can take: the margin fits the strategy field
    /// and the adaptive bounds are ordered.
    pub open spec fn valid(self) -> bool {
        &&& 0 <= self.margin <= u32::MAX
        &&& (self.adaptive_sampling ==> self.min_adaptive_interval <= self.max_adaptive_interval)
    }
}

/// The whole policy file: the global selector and the four mode blocks.
#[derive(Clone, Debug)]
pub struct Config {
    pub global: Global,
    pub powersave: ModeParams,
    pub balance: ModeParams,
    pub performance: ModeParams,
    pub fast: ModeParams,
}

impl Config {
    pub open spec fn valid(self) -> bool {
        &&& self.powersave.valid()
        &&& self.balance.valid()
        &&& self.performance.valid()
        &&& self.fast.valid()
    }

    pub fn global_mode(&self) -> (r: &str)
        ensures
            r@ == self.global.mode@,
    {
        self.global.mode.as_str()
    }
}

/// The block a mode name selects; an unknown name falls back to balance.
pub open spec fn spec_mode_params(c: Config, mode: Seq<char>) -> ModeParams {
    if mode == "powersave"@ {
        c.powersave
    } else if mode == "balance"@ {
        c.balance
    } else if mode == "performance"@ {
        c.performance
    } else if mode == "fast"@ {
        c.fast
    } else {
        c.balance
    }
}

/// An unknown mode name selects the balance block: the effective policy of
/// any name that is none of the four known modes equals the balance block.
pub proof fn lemma_unknown_mode_selects_balance(c: Config, mode: Seq<char>)
    requires
        mode != "powersave"@,
        mode != "balance"@,
        mode != "performance"@,
        mode != "fast"@,
    ensures
        spec_mode_params(c, mode) == c.balance,
{
}

/// Select the parameter block of a mode name.
pub fn mode_params<'a>(config: &'a Config, mode: &String) -> (p: &'a ModeParams)
    ensures
        *p == spec_mode_params(*config, mode@),
{
    let powersave = "powersave".to_owned();
    let balance = "balance".to_owned();
    let performance = "performance".to_owned();
    let fast = "fast".to_owned();
    if mode.eq(&powersave) {
        &config.powersave
    } else if mode.eq(&balance) {
        &config.balance
    } else if mode.eq(&performance) {
        &config.performance
    } else if mode.eq(&fast) {
        &config.fast
    } else {
        &config.balance
    }
}

/// The mode a load request targets: the explicit one when given, otherwise
/// the file's global selector.
pub open spec fn spec_target_mode(c: Config, target: Option<Seq<char>>) -> Seq<char> {
    match target {
        Some(m) => m,
        None => c.global.mode@,
    }
}

/// How one application of a configuration transforms the state.
///
/// The idle threshold is always taken over. When the selected mode is
/// already active nothing else changes; otherwise the mode's block replaces
/// the strategy bundle as a whole, the gaming switch couples or releases
/// the memory frequency (the returned step commits that), and the adaptive
/// sampling bounds are installed.
pub open spec fn applies_config(
    g0: GPU,
    c: Config,
    target: Option<Seq<char>>,
    g1: GPU,
    step: Option<WriteStep>,
) -> bool {
    let mode = spec_target_mode(c, target);
    if g0.current_mode@ == mode {
        &&& g1 == (GPU {
            idle_manager: (IdleManager {
                idle_threshold: c.global.idle_threshold,
                ..g0.idle_manager
            }),
            ..g0
        })
        &&& step is None
    } else {
        let p = spec_mode_params(c, mode);
        &&& g1.current_mode@ == mode
        &&& g1.frequency_strategy == (FrequencyStrategy {
            margin: p.margin as u32,
            aggressive_down: p.aggressive_down,
            sampling_interval: if p.adaptive_sampling {
                p.min_adaptive_interval
            } else {
                p.sampling_interval
            },
            up_debounce_time: p.up_rate_delay,
            down_debounce_time: p.down_rate_delay,
            ..g0.frequency_strategy
        })
        &&& g1.adaptive_sampling_enabled == p.adaptive_sampling
        &&& g1.min_adaptive_interval == if p.adaptive_sampling {
            p.min_adaptive_interval
        } else {
            g0.min_adaptive_interval
        }
        &&& g1.max_adaptive_interval == if p.adaptive_sampling {
            p.max_adaptive_interval
        } else {
            g0.max_adaptive_interval
        }
        &&& (if p.gaming_mode {
            &&& g1.ddr_manager == (DdrManager {
                ddr_freq_fixed: g0.ddr_manager.spec_state_after_set(g0.spec_gaming_ddr_opp()).0,
                ddr_freq: g0.ddr_manager.spec_state_after_set(g0.spec_gaming_ddr_opp()).1,
                ..g0.ddr_manager
            })
            &&& step == Some(g1.ddr_manager.spec_ddr_write_step())
        } else if g0.ddr_manager.ddr_freq_fixed {
            &&& g1.ddr_manager == (DdrManager {
                ddr_freq_fixed: false,
                ddr_freq: spec_ddr_auto_value(g0.ddr_manager.gpuv2),
                ..g0.ddr_manager
            })
            &&& step == Some(g1.ddr_manager.spec_ddr_write_step())
        } else {
            &&& g1.ddr_manager == g0.ddr_manager
            &&& step is None
        })
        &&& g1 == (GPU {
            current_mode: g1.current_mode,
            frequency_strategy: g1.frequency_strategy,
            gaming_mode: p.gaming_mode,
            adaptive_sampling_enabled: g1.adaptive_sampling_enabled,
            min_adaptive_interval: g1.min_adaptive_interval,
            max_adaptive_interval: g1.max_adaptive_interval,
            idle_manager: (IdleManager {
                idle_threshold: c.global.idle_threshold,
                ..g0.idle_manager
            }),
            ddr_manager: g1.ddr_manager,
            ..g0
        })
    }
}

/// Apply a policy configuration to the state.
///
/// The idle threshold is installed first; a mode that is already active is
/// not re-applied. Otherwise the selected block (an unknown name selects
/// balance) replaces the strategy bundle wholesale. The returned step, when
/// present, commits the memory-frequency change of the gaming switch.
pub fn apply_config(gpu: &mut GPU, config: &Config, target_mode: Option<&String>) -> (step: Option<
    WriteStep,
>)
    requires
        config.valid(),
    ensures
        applies_config(
            *old(gpu),
            *config,
            match target_mode {
                Some(m) => Some(m@),
                None => None,
            },
            *final(gpu),
            step,
        ),
        old(gpu).wf() ==> final(gpu).wf(),
{
    gpu.idle_manager_mut().set_idle_threshold(config.global.idle_threshold);
    let mode: &String = match target_mode {
        Some(m) => m,
        None => &config.global.mode,
    };
    if gpu.current_mode().eq(mode) {
        return None;
    }
    gpu.set_current_mode(mode.clone());
    let p: ModeParams = *mode_params(config, mode);
    gpu.frequency_strategy_mut().set_margin(p.margin as u32);
    gpu.frequency_strategy_mut().set_aggressive_down(p.aggressive_down);
    gpu.frequency_strategy_mut().set_sampling_interval(p.sampling_interval);
    let step = gpu.set_gaming_mode(p.gaming_mode);
    gpu.set_adaptive_sampling(
        p.adaptive_sampling,
        p.min_adaptive_interval,
        p.max_adaptive_interval,
        p.sampling_interval,
    );
    gpu.set_up_rate_delay(p.up_rate_delay);
    gpu.set_debounce_times(p.up_rate_delay, p.down_rate_delay);
    step
}

/// Reload idempotence: applying one configuration twice, with the same
/// target mode, leaves the state exactly as the first application left it.
/// The second application finds the selected mode already active, so beyond
/// re-installing the same idle threshold it changes nothing.
pub proof fn lemma_reload_idempotent(
    g0: GPU,
    g1: GPU,
    g2: GPU,
    c: Config,
    target: Option<Seq<char>>,
    step1: Option<WriteStep>,
    step2: Option<WriteStep>,
)
    requires
        applies_config(g0, c, target, g1, step1),
        applies_config(g1, c, target, g2, step2),
    ensures
        g2 == g1,
        step2 is None,
{
    assert(g1.current_mode@ == spec_target_mode(c, target));
    assert(g1.idle_manager.idle_threshold == c.global.idle_threshold);
    assert(g2.idle_manager == g1.idle_manager);
}

/// A configuration delta: one full strategy bundle, carried from a watcher
/// thread to the control loop over a channel. The loop applies at most one
/// per tick, latest wins.
#[derive(Clone, Debug)]
pub struct ConfigDelta {
    pub margin: i64,
    pub aggressive_down: bool,
    pub sampling_interval: u64,
    pub gaming_mode: bool,
    pub adaptive_sampling: bool,
    pub min_adaptive_interval: u64,
    pub max_adaptive_interval: u64,
    pub up_rate_delay: u64,
    pub down_rate_delay: u64,
    /// The idle threshold of the file's global section, when known.
    pub idle_threshold: Option<i32>,
    /// The mode name this bundle belongs to, when known.
    pub mode: Option<String>,
}

impl ConfigDelta {
    pub open spec fn valid(self) -> bool {
        &&& 0 <= self.margin <= u32::MAX
        &&& (self.adaptive_sampling ==> self.min_adaptive_interval <= self.max_adaptive_interval)
    }
}

/// How one delta transforms the state: the bundle is installed wholesale.
pub open spec fn applies_delta(g0: GPU, d: ConfigDelta, g1: GPU, step: Option<WriteStep>) -> bool {
    &&& g1.frequency_strategy == (FrequencyStrategy {
        margin: d.margin as u32,
        aggressive_down: d.aggressive_down,
        sampling_interval: if d.adaptive_sampling {
            d.min_adaptive_interval
        } else {
            d.sampling_interval
        },
        up_debounce_time: d.up_rate_delay,
        down_debounce_time: d.down_rate_delay,
        ..g0.frequency_strategy
    })
    &&& g1.adaptive_sampling_enabled == d.adaptive_sampling
    &&& g1.min_adaptive_interval == if d.adaptive_sampling {
        d.min_adaptive_interval
    } else {
        g0.min_adaptive_interval
    }
    &&& g1.max_adaptive_interval == if d.adaptive_sampling {
        d.max_adaptive_interval
    } else {
        g0.max_adaptive_interval
    }
    &&& g1.current_mode@ == (match d.mode {
        Some(m) => m@,
        None => g0.current_mode@,
    })
    &&& (if d.gaming_mode {
        &&& g1.ddr_manager == (DdrManager {
            ddr_freq_fixed: g0.ddr_manager.spec_state_after_set(g0.spec_gaming_ddr_opp()).0,
            ddr_freq: g0.ddr_manager.spec_state_after_set(g0.spec_gaming_ddr_opp()).1,
            ..g0.ddr_manager
        })
        &&& step == Some(g1.ddr_manager.spec_ddr_write_step())
    } else if g0.ddr_manager.ddr_freq_fixed {
        &&& g1.ddr_manager == (DdrManager {
            ddr_freq_fixed: false,
            ddr_freq: spec_ddr_auto_value(g0.ddr_manager.gpuv2),
            ..g0.ddr_manager
        })
        &&& step == Some(g1.ddr_manager.spec_ddr_write_step())
    } else {
        &&& g1.ddr_manager == g0.ddr_manager
        &&& step is None
    })
    &&& g1 == (GPU {
        current_mode: g1.current_mode,
        frequency_strategy: g1.frequency_strategy,
        gaming_mode: d.gaming_mode,
        adaptive_sampling_enabled: g1.adaptive_sampling_enabled,
        min_adaptive_interval: g1.min_adaptive_interval,
        max_adaptive_interval: g1.max_adaptive_interval,
        idle_manager: (IdleManager {
            idle_threshold: match d.idle_threshold {
                Some(t) => t,
                None => g0.idle_manager.idle_threshold,
            },
            ..g0.idle_manager
        }),
        ddr_manager: g1.ddr_manager,
        ..g0
    })
}

/// Apply a configuration delta wholesale. The returned step, when present,
/// commits the memory-frequency change of the gaming switch.
pub fn apply_config_delta(gpu: &mut GPU, delta: &ConfigDelta) -> (step: Option<WriteStep>)
    requires
        delta.valid(),
    ensures
        applies_delta(*old(gpu), *delta, *final(gpu), step),
        old(gpu).wf() ==> final(gpu).wf(),
{
    match delta.idle_threshold {
        Some(t) => gpu.idle_manager_mut().set_idle_threshold(t),
        None => {},
    }
    gpu.frequency_strategy_mut().set_margin(delta.margin as u32);
    gpu.frequency_strategy_mut().set_aggressive_down(delta.aggressive_down);
    gpu.frequency_strategy_mut().set_sampling_interval(delta.sampling_interval);
    let step = gpu.set_gaming_mode(delta.gaming_mode);
    gpu.set_adaptive_sampling(
        delta.adaptive_sampling,
        delta.min_adaptive_interval,
        delta.max_adaptive_interval,
        delta.sampling_interval,
    );
    gpu.set_up_rate_delay(delta.up_rate_delay);
    gpu.set_debounce_times(delta.up_rate_delay, delta.down_rate_delay);
    match &delta.mode {
        Some(m) => gpu.set_current_mode(m.clone()),
        None => {},
    }
    step
}

/// The mode configured for a package in the games list: the first entry
/// whose package name matches.
pub fn lookup_mode<'a>(games: &'a Vec<(String, String)>, package: &String) -> (r: Option<
    &'a String,
>)
    ensures
        match r {
            Some(m) => exists|i: int|
                {
                    &&& 0 <= i < games@.len()
                    &&& (#[trigger] games@[i]).0@ == package@
                    &&& m@ == games@[i].1@
                    &&& forall|j: int| 0 <= j < i ==> (#[trigger] games@[j]).0@ != package@
                },
            None => forall|i: int|
                0 <= i < games@.len() ==> (#[trigger] games@[i]).0@ != package@,
        },
{
    let mut k: usize = 0;
    while k < games.len()
        invariant
            0 <= k <= games@.len(),
            forall|j: int| 0 <= j < k ==> (#[trigger] games@[j]).0@ != package@,
        decreases games@.len() - k,
    {
        if games[k].0.eq(package) {
            return Some(&games[k].1);
        }
        k += 1;
    }
    None
}

} // verus!
