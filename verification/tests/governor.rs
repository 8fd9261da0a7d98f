//! End-to-end behaviour of the control engine and the policy application.

use std::collections::HashMap;

use gpu_governor::{
    apply_config, apply_config_delta, load_freq_table, mode_params, Config, ConfigDelta,
    FreqTableEntry, FrequencyAdjustmentEngine, Global, ModeParams, TabType, TickAction, GPU,
};

/// A GPU with the table {200000, 400000, 800000} and matching voltages.
fn gpu_with_small_table() -> GPU {
    let mut gpu = GPU::new();
    let entries = vec![
        FreqTableEntry { freq: 200000, volt: 61250, ddr_opp: 3 },
        FreqTableEntry { freq: 400000, volt: 62500, ddr_opp: 2 },
        FreqTableEntry { freq: 800000, volt: 65000, ddr_opp: 0 },
    ];
    load_freq_table(&mut gpu, &entries).expect("table must load");
    gpu
}

fn params(margin: i64, sampling: u64) -> ModeParams {
    ModeParams {
        margin,
        aggressive_down: false,
        sampling_interval: sampling,
        gaming_mode: false,
        adaptive_sampling: false,
        min_adaptive_interval: 2,
        max_adaptive_interval: 20,
        up_rate_delay: 500,
        down_rate_delay: 500,
    }
}

fn four_mode_config(mode: &str) -> Config {
    Config {
        global: Global { mode: mode.to_string(), idle_threshold: 5 },
        powersave: params(10, 24),
        balance: params(30, 16),
        performance: params(60, 8),
        fast: params(90, 4),
    }
}

#[test]
fn raw_target_formula() {
    // now_freq=500000, util=80, margin=5: 500000 * 85 / 100 = 425000.
    let r = FrequencyAdjustmentEngine::compute_raw_target(500000, 80, 5);
    assert_eq!(r, 425000);
}

#[test]
fn raw_target_zero_cases() {
    assert_eq!(FrequencyAdjustmentEngine::compute_raw_target(0, 80, 5), 0);
    assert_eq!(FrequencyAdjustmentEngine::compute_raw_target(500000, 0, 0), 0);
    assert_eq!(FrequencyAdjustmentEngine::compute_raw_target(500000, -10, 5), 0);
}

#[test]
fn index_clamping() {
    let gpu = gpu_with_small_table();
    assert_eq!(gpu.get_freq_by_index(-5), 200000);
    assert_eq!(gpu.get_freq_by_index(3 + 5), 800000);
    assert_eq!(gpu.get_freq_by_index(1), 400000);
}

#[test]
fn index_on_empty_table() {
    let gpu = GPU::new();
    assert_eq!(gpu.get_freq_by_index(-5), 0);
    assert_eq!(gpu.get_freq_by_index(5), 0);
}

#[test]
fn debounce_skips_too_soon_adjustment() {
    let mut gpu = gpu_with_small_table();
    gpu.set_cur_freq(400000);
    gpu.frequency_mut().cur_freq_idx = 1;
    gpu.frequency_strategy_mut().set_debounce_times(500, 500);
    gpu.frequency_strategy_mut().update_last_adjustment_time(1000);
    // load 30, margin 50 (default): raw = 400000 * 80 / 100 = 320000,
    // clamped stays, snapped to 400000 -> no change. Use margin 5.
    gpu.frequency_strategy_mut().set_margin(5);
    // raw = 400000 * 35 / 100 = 140000 -> clamp to 200000 -> snap 200000.
    let action = FrequencyAdjustmentEngine::adjust_frequency(&mut gpu, 30, 1100);
    assert!(matches!(action, TickAction::Debounced { .. }));
    assert_eq!(gpu.get_cur_freq(), 400000);
    assert_eq!(gpu.frequency().cur_freq_idx, 1);
    assert_eq!(gpu.frequency_strategy.last_adjustment_time, 1000);
}

#[test]
fn debounce_elapsed_applies_adjustment() {
    let mut gpu = gpu_with_small_table();
    gpu.set_cur_freq(400000);
    gpu.frequency_mut().cur_freq_idx = 1;
    gpu.frequency_strategy_mut().set_debounce_times(500, 500);
    gpu.frequency_strategy_mut().update_last_adjustment_time(1000);
    gpu.frequency_strategy_mut().set_margin(5);
    let action = FrequencyAdjustmentEngine::adjust_frequency(&mut gpu, 30, 1500);
    match action {
        TickAction::Applied { plan, ddr, .. } => {
            assert!(!plan.steps.is_empty());
            assert!(ddr.is_none());
        }
        other => panic!("expected an applied change, got {:?}", other),
    }
    assert_eq!(gpu.get_cur_freq(), 200000);
    assert_eq!(gpu.frequency().cur_freq_idx, 0);
    assert_eq!(gpu.frequency().cur_volt, 61250);
    assert_eq!(gpu.frequency_strategy.last_adjustment_time, 1500);
}

#[test]
fn unchanged_target_is_a_no_op() {
    let mut gpu = gpu_with_small_table();
    gpu.set_cur_freq(400000);
    gpu.frequency_mut().cur_freq_idx = 1;
    gpu.frequency_strategy_mut().set_margin(5);
    gpu.frequency_strategy_mut().update_last_adjustment_time(1000);
    // raw = 400000 * 100 / 100 = 400000: target equals current.
    let action = FrequencyAdjustmentEngine::adjust_frequency(&mut gpu, 95, 9000);
    assert!(matches!(action, TickAction::NoChange { .. }));
    assert_eq!(gpu.get_cur_freq(), 400000);
    assert_eq!(gpu.frequency_strategy.last_adjustment_time, 1000);
}

#[test]
fn idle_tick_releases_hardware() {
    let mut gpu = gpu_with_small_table();
    gpu.set_cur_freq(400000);
    gpu.idle_manager_mut().set_idle_threshold(5);
    let action = FrequencyAdjustmentEngine::adjust_frequency(&mut gpu, 3, 1000);
    match action {
        TickAction::Idle { plan, sleep_ms } => {
            assert!(!plan.steps.is_empty());
            assert_eq!(sleep_ms, 200);
        }
        other => panic!("expected an idle release, got {:?}", other),
    }
    assert!(gpu.is_idle());
    assert_eq!(gpu.get_cur_freq(), 400000);
}

#[test]
fn idle_sleep_is_shorter_in_precise_mode() {
    let mut gpu = gpu_with_small_table();
    gpu.set_precise(true);
    let action = FrequencyAdjustmentEngine::adjust_frequency(&mut gpu, 0, 1000);
    match action {
        TickAction::Idle { sleep_ms, .. } => assert_eq!(sleep_ms, 160),
        other => panic!("expected an idle release, got {:?}", other),
    }
}

#[test]
fn record_sample_trusts_hardware_frequency() {
    let mut gpu = gpu_with_small_table();
    gpu.set_cur_freq(200000);
    FrequencyAdjustmentEngine::record_sample(&mut gpu, 40, 800000);
    assert_eq!(gpu.get_cur_freq(), 800000);
    assert_eq!(gpu.frequency().cur_freq_idx, 2);
    // A non-positive reading keeps the previous frequency.
    FrequencyAdjustmentEngine::record_sample(&mut gpu, 40, 0);
    assert_eq!(gpu.get_cur_freq(), 800000);
}

#[test]
fn v2_subset_snapping_on_tick() {
    let mut gpu = gpu_with_small_table();
    gpu.set_gpuv2(true);
    gpu.set_v2_supported_freqs(vec![250000, 400000, 800000]);
    gpu.set_cur_freq(400000);
    gpu.frequency_mut().cur_freq_idx = 1;
    gpu.frequency_strategy_mut().set_margin(5);
    // raw = 400000 * 35 / 100 = 140000 -> clamp 200000 -> table snap 200000
    // -> v2 subset snap to 250000 (nearest supported).
    let action = FrequencyAdjustmentEngine::adjust_frequency(&mut gpu, 30, 10000);
    assert!(matches!(action, TickAction::Applied { .. }));
    assert_eq!(gpu.get_cur_freq(), 250000);
}

#[test]
fn falling_trend_lowers_the_target() {
    // With a stable trend the raw target 400000 * 77 / 100 = 308000 snaps
    // back to the current 400000; a falling trend subtracts three margin
    // points, the raw target drops to 296000 and snaps down to 200000.
    let mut gpu = gpu_with_small_table();
    gpu.set_cur_freq(400000);
    gpu.frequency_mut().cur_freq_idx = 1;
    gpu.frequency_strategy_mut().set_margin(5);
    let action = FrequencyAdjustmentEngine::adjust_frequency(&mut gpu, 72, 10000);
    assert!(matches!(action, TickAction::NoChange { .. }));
    assert_eq!(gpu.get_cur_freq(), 400000);

    let mut falling = gpu_with_small_table();
    falling.set_cur_freq(400000);
    falling.frequency_mut().cur_freq_idx = 1;
    falling.frequency_strategy_mut().set_margin(5);
    falling.load_analyzer.load_trend = -1;
    let action = FrequencyAdjustmentEngine::adjust_frequency(&mut falling, 72, 10000);
    assert!(matches!(action, TickAction::Applied { .. }));
    assert_eq!(falling.get_cur_freq(), 200000);
}

#[test]
fn gaming_tick_couples_ddr() {
    let mut gpu = gpu_with_small_table();
    let _ = gpu.set_gaming_mode(true);
    gpu.set_cur_freq(400000);
    gpu.frequency_mut().cur_freq_idx = 1;
    gpu.frequency_strategy_mut().set_margin(5);
    let action = FrequencyAdjustmentEngine::adjust_frequency(&mut gpu, 30, 10000);
    match action {
        TickAction::Applied { ddr, .. } => {
            // Target 200000 maps to DDR OPP 3 in the table.
            assert!(ddr.is_some());
            assert!(gpu.ddr_manager().is_ddr_freq_fixed());
            assert_eq!(gpu.ddr_manager().get_ddr_freq(), 3);
        }
        other => panic!("expected an applied change, got {:?}", other),
    }
}

#[test]
fn reload_identical_config_is_idempotent() {
    let mut gpu = gpu_with_small_table();
    let config = four_mode_config("performance");
    let first = apply_config(&mut gpu, &config, None);
    assert!(first.is_none());
    let margin = gpu.frequency_strategy.margin;
    let interval = gpu.frequency_strategy.sampling_interval;
    let up = gpu.frequency_strategy.up_debounce_time;
    let down = gpu.frequency_strategy.down_debounce_time;
    let gaming = gpu.is_gaming_mode();
    let second = apply_config(&mut gpu, &config, None);
    assert!(second.is_none());
    assert_eq!(gpu.frequency_strategy.margin, margin);
    assert_eq!(gpu.frequency_strategy.sampling_interval, interval);
    assert_eq!(gpu.frequency_strategy.up_debounce_time, up);
    assert_eq!(gpu.frequency_strategy.down_debounce_time, down);
    assert_eq!(gpu.is_gaming_mode(), gaming);
    assert_eq!(gpu.current_mode().as_str(), "performance");
    assert_eq!(gpu.idle_manager.idle_threshold, 5);
    assert_eq!(gpu.frequency_strategy.margin, 60);
}

#[test]
fn unknown_mode_falls_back_to_balance() {
    let config = four_mode_config("anything_else");
    let p = mode_params(&config, &"anything_else".to_string());
    assert_eq!(*p, config.balance);

    let mut gpu = gpu_with_small_table();
    let _ = apply_config(&mut gpu, &config, None);
    assert_eq!(gpu.frequency_strategy.margin, 30);
    assert_eq!(gpu.frequency_strategy.sampling_interval, 16);
}

#[test]
fn explicit_target_mode_overrides_global() {
    let config = four_mode_config("balance");
    let mut gpu = gpu_with_small_table();
    let _ = apply_config(&mut gpu, &config, Some(&"fast".to_string()));
    assert_eq!(gpu.frequency_strategy.margin, 90);
    assert_eq!(gpu.current_mode().as_str(), "fast");
}

#[test]
fn config_delta_installs_whole_bundle() {
    let mut gpu = gpu_with_small_table();
    let delta = ConfigDelta {
        margin: 42,
        aggressive_down: true,
        sampling_interval: 12,
        gaming_mode: false,
        adaptive_sampling: true,
        min_adaptive_interval: 3,
        max_adaptive_interval: 30,
        up_rate_delay: 111,
        down_rate_delay: 222,
        idle_threshold: Some(7),
        mode: Some("fast".to_string()),
    };
    let step = apply_config_delta(&mut gpu, &delta);
    assert!(step.is_none());
    assert_eq!(gpu.frequency_strategy.margin, 42);
    assert!(gpu.frequency_strategy.aggressive_down);
    // Adaptive sampling starts at the minimum interval.
    assert_eq!(gpu.frequency_strategy.sampling_interval, 3);
    assert_eq!(gpu.frequency_strategy.up_debounce_time, 111);
    assert_eq!(gpu.frequency_strategy.down_debounce_time, 222);
    assert_eq!(gpu.idle_manager.idle_threshold, 7);
    assert_eq!(gpu.current_mode().as_str(), "fast");
}

#[test]
fn adaptive_interval_follows_load_swings() {
    let mut gpu = GPU::new();
    gpu.set_adaptive_sampling(true, 2, 20, 8);
    assert_eq!(gpu.frequency_strategy.sampling_interval, 2);
    // Large swing pins the minimum.
    gpu.adjust_sampling_interval_by_load(50);
    assert_eq!(gpu.frequency_strategy.sampling_interval, 2);
    // Steady load pins the maximum.
    gpu.adjust_sampling_interval_by_load(52);
    assert_eq!(gpu.frequency_strategy.sampling_interval, 20);
    // A middling swing interpolates: 20 - 10 * 18 / 30 = 14.
    gpu.adjust_sampling_interval_by_load(62);
    assert_eq!(gpu.frequency_strategy.sampling_interval, 14);
}

#[test]
fn gaming_mode_shortens_adaptive_interval() {
    let mut gpu = GPU::new();
    gpu.set_adaptive_sampling(true, 2, 20, 8);
    gpu.gaming_mode = true;
    // Steady load would pin the maximum; gaming halves it.
    gpu.adjust_sampling_interval_by_load(1);
    assert_eq!(gpu.frequency_strategy.sampling_interval, 10);
    // The shortened interval never drops below the minimum bound.
    gpu.adjust_sampling_interval_by_load(50);
    assert_eq!(gpu.frequency_strategy.sampling_interval, 2);
}

#[test]
fn table_lookup_helpers() {
    let gpu = gpu_with_small_table();
    assert_eq!(gpu.get_max_freq(), 800000);
    assert_eq!(gpu.get_min_freq(), 200000);
    assert_eq!(gpu.get_middle_freq(), 400000);
    assert_eq!(gpu.read_freq_ge(300000), 400000);
    assert_eq!(gpu.read_freq_ge(900000), 800000);
    assert_eq!(gpu.read_freq_le(300000), 200000);
    assert_eq!(gpu.read_freq_le(100000), 200000);
    assert_eq!(gpu.find_closest_freq_index(350000), 1);
}

#[test]
fn voltage_fallback_uses_nearest_supported() {
    let mut gpu = gpu_with_small_table();
    // No exact voltage for 300000; nearest of the manager's supported list.
    gpu.frequency_mut().v2_supported_freqs = vec![200000, 400000];
    gpu.set_cur_freq(300000);
    let volt = gpu.frequency_mut().gen_cur_volt();
    // 300000 snaps to 200000 (tie resolves to the lower), whose voltage is
    // 61250.
    assert_eq!(volt, 61250);
}

#[test]
fn replace_tab_and_read_tab() {
    let mut gpu = GPU::new();
    let mut volts: HashMap<i64, i64> = HashMap::new();
    volts.insert(100, 625);
    gpu.replace_tab(TabType::FreqVolt, volts);
    assert_eq!(gpu.read_tab(TabType::FreqVolt, 100), 625);
    assert_eq!(gpu.read_tab(TabType::FreqVolt, 200), 0);
    assert_eq!(gpu.read_tab(TabType::FreqDram, 100), 0);
}
