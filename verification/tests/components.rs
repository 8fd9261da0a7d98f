//! Behaviour of the individual components: table loading, nearest-match
//! snapping, idle hysteresis, trend analysis, DDR coupling, write plans,
//! the delta sampler and driver detection.

use gpu_governor::{
    classify_driver, load_freq_table, lookup_mode, volt_is_valid, CtlFile, CtlValue, DdrManager,
    DeltaLoadSampler, FreqTableEntry, FrequencyManager, IdleManager, LoadAnalyzer, TableError, GPU,
};

#[test]
fn invalid_voltages_never_enter_the_table() {
    let mut gpu = GPU::new();
    let entries = vec![
        FreqTableEntry { freq: 300000, volt: 62500, ddr_opp: 1 },
        // 1000 is not a multiple of 625: dropped.
        FreqTableEntry { freq: 500000, volt: 1000, ddr_opp: 2 },
        // zero voltage: dropped.
        FreqTableEntry { freq: 700000, volt: 0, ddr_opp: 3 },
        FreqTableEntry { freq: 900000, volt: 65625, ddr_opp: 0 },
    ];
    load_freq_table(&mut gpu, &entries).expect("two entries are valid");
    let list = gpu.get_config_list();
    assert_eq!(list, vec![300000, 900000]);
    assert_eq!(gpu.frequency().read_freq_volt(300000), 62500);
    assert_eq!(gpu.frequency().read_freq_volt(500000), 0);
    assert_eq!(gpu.frequency().read_freq_volt(700000), 0);
    assert_eq!(gpu.frequency().read_freq_volt(900000), 65625);
    assert_eq!(gpu.frequency().read_freq_dram(900000), 0);
}

#[test]
fn volt_validity_rule() {
    assert!(volt_is_valid(625));
    assert!(volt_is_valid(61250));
    assert!(!volt_is_valid(0));
    assert!(!volt_is_valid(626));
    assert!(!volt_is_valid(1000));
}

#[test]
fn empty_table_is_a_hard_error() {
    let mut gpu = GPU::new();
    let entries = vec![FreqTableEntry { freq: 300000, volt: 3, ddr_opp: 1 }];
    assert_eq!(load_freq_table(&mut gpu, &entries), Err(TableError::Empty));
    assert!(gpu.get_config_list().is_empty());
    let none: Vec<FreqTableEntry> = Vec::new();
    assert_eq!(load_freq_table(&mut gpu, &none), Err(TableError::Empty));
}

#[test]
fn table_reload_replaces_and_sorts() {
    let mut gpu = GPU::new();
    let entries = vec![
        FreqTableEntry { freq: 900000, volt: 625, ddr_opp: 0 },
        FreqTableEntry { freq: 300000, volt: 1250, ddr_opp: 2 },
        FreqTableEntry { freq: 600000, volt: 1875, ddr_opp: 1 },
    ];
    load_freq_table(&mut gpu, &entries).unwrap();
    assert_eq!(gpu.get_config_list(), vec![300000, 600000, 900000]);
    let replacement = vec![FreqTableEntry { freq: 100000, volt: 625, ddr_opp: 4 }];
    load_freq_table(&mut gpu, &replacement).unwrap();
    assert_eq!(gpu.get_config_list(), vec![100000]);
    assert_eq!(gpu.frequency().read_freq_volt(900000), 0);
}

#[test]
fn duplicate_frequencies_keep_last_entry() {
    let mut gpu = GPU::new();
    let entries = vec![
        FreqTableEntry { freq: 500000, volt: 625, ddr_opp: 1 },
        FreqTableEntry { freq: 500000, volt: 1250, ddr_opp: 2 },
    ];
    load_freq_table(&mut gpu, &entries).unwrap();
    assert_eq!(gpu.get_config_list(), vec![500000]);
    assert_eq!(gpu.frequency().read_freq_volt(500000), 1250);
    assert_eq!(gpu.frequency().read_freq_dram(500000), 2);
}

#[test]
fn v2_snapping_picks_minimal_distance() {
    let mut fm = FrequencyManager::new();
    fm.v2_supported_freqs = vec![400, 800, 1200];
    // 650 is 250 from 400, 150 from 800, 550 from 1200.
    assert_eq!(fm.get_closest_v2_supported_freq(650), 800);
}

#[test]
fn v2_snapping_tie_resolves_to_lower() {
    let mut fm = FrequencyManager::new();
    fm.v2_supported_freqs = vec![400, 800, 1200];
    // 600 is 200 from both 400 and 800: the lower candidate wins.
    assert_eq!(fm.get_closest_v2_supported_freq(600), 400);
}

#[test]
fn v2_snapping_without_list_passes_through() {
    let fm = FrequencyManager::new();
    assert_eq!(fm.get_closest_v2_supported_freq(650), 650);
}

#[test]
fn idle_declared_after_consecutive_low_samples() {
    let mut analyzer = LoadAnalyzer::new();
    for _ in 0..59 {
        analyzer.check_idle_state(0);
        assert!(!analyzer.is_idle());
    }
    analyzer.check_idle_state(0);
    assert!(analyzer.is_idle());
}

#[test]
fn single_recovery_sample_clears_idle() {
    let mut analyzer = LoadAnalyzer::new();
    for _ in 0..200 {
        analyzer.check_idle_state(0);
    }
    assert!(analyzer.is_idle());
    // One sample at the recovery threshold clears idle at once.
    analyzer.check_idle_state(50);
    assert!(!analyzer.is_idle());
}

#[test]
fn samples_at_the_threshold_count_towards_idle() {
    let mut analyzer = LoadAnalyzer::new();
    assert_eq!(analyzer.idle_threshold, 5);
    // Samples at the threshold accumulate like samples below it.
    for _ in 0..60 {
        analyzer.check_idle_state(5);
    }
    assert!(analyzer.is_idle());
    // One sample just above the threshold resets the count.
    let mut other = LoadAnalyzer::new();
    for _ in 0..59 {
        other.check_idle_state(5);
    }
    other.check_idle_state(6);
    other.check_idle_state(5);
    assert!(!other.is_idle());
}

#[test]
fn positive_sample_resets_the_low_count() {
    let mut analyzer = LoadAnalyzer::new();
    for _ in 0..59 {
        analyzer.check_idle_state(0);
    }
    // A mildly positive sample resets the count without clearing idle.
    analyzer.check_idle_state(10);
    for _ in 0..59 {
        analyzer.check_idle_state(0);
        assert!(!analyzer.is_idle());
    }
    analyzer.check_idle_state(0);
    assert!(analyzer.is_idle());
}

#[test]
fn trend_classification() {
    let mut analyzer = LoadAnalyzer::new();
    for load in [10, 10, 10, 50, 60] {
        analyzer.update_load_history(load);
    }
    assert_eq!(analyzer.get_load_trend(), 1);

    let mut falling = LoadAnalyzer::new();
    for load in [80, 80, 80, 10, 5] {
        falling.update_load_history(load);
    }
    assert_eq!(falling.get_load_trend(), -1);

    let mut stable = LoadAnalyzer::new();
    for load in [50, 50, 50, 50, 50] {
        stable.update_load_history(load);
    }
    assert_eq!(stable.get_load_trend(), 0);
}

#[test]
fn trend_needs_three_samples() {
    let mut analyzer = LoadAnalyzer::new();
    assert_eq!(analyzer.update_load_history(90), 0);
    assert_eq!(analyzer.update_load_history(10), 0);
}

#[test]
fn history_window_keeps_five_samples() {
    let mut analyzer = LoadAnalyzer::new();
    for load in [1, 2, 3, 4, 5, 6, 7] {
        analyzer.update_load_history(load);
    }
    assert_eq!(analyzer.load_history, vec![3, 4, 5, 6, 7]);
}

#[test]
fn load_zone_counter_tracks_stays() {
    let mut analyzer = LoadAnalyzer::new();
    analyzer.set_current_load_zone(3);
    assert_eq!(analyzer.get_load_zone_counter(), 1);
    analyzer.set_current_load_zone(3);
    assert_eq!(analyzer.get_load_zone_counter(), 2);
    analyzer.set_current_load_zone(1);
    assert_eq!(analyzer.get_load_zone_counter(), 1);
    analyzer.reset_load_zone_counter();
    assert_eq!(analyzer.get_load_zone_counter(), 0);
}

#[test]
fn ddr_request_classification() {
    let mut ddr = DdrManager::new();
    // The auto sentinel releases to auto mode; on v1 the file gets -1.
    let step = ddr.set_ddr_freq(999);
    assert!(!ddr.is_ddr_freq_fixed());
    assert_eq!(step.file, CtlFile::DdrV1);
    assert_eq!(step.value, CtlValue::Single(-1));
    // A small value is a direct OPP index.
    let step = ddr.set_ddr_freq(3);
    assert!(ddr.is_ddr_freq_fixed());
    assert_eq!(ddr.get_ddr_freq(), 3);
    assert_eq!(step.value, CtlValue::Single(3));
    // A negative value releases again.
    let step = ddr.set_ddr_freq(-2);
    assert!(!ddr.is_ddr_freq_fixed());
    assert_eq!(step.value, CtlValue::Single(-1));
    // A real frequency maps to the highest tier.
    let step = ddr.set_ddr_freq(1200000);
    assert!(ddr.is_ddr_freq_fixed());
    assert_eq!(ddr.get_ddr_freq(), 0);
    assert_eq!(step.value, CtlValue::Single(0));
}

#[test]
fn ddr_v2_uses_v2_paths_and_sentinel() {
    let mut ddr = DdrManager::new();
    ddr.set_gpuv2(true);
    let step = ddr.set_ddr_freq(999);
    assert_eq!(step.file, CtlFile::DdrV2);
    assert_eq!(step.value, CtlValue::Single(999));
    assert_eq!(ddr.get_ddr_freq(), 999);
}

#[test]
fn gaming_mode_couples_and_releases_ddr() {
    let mut gpu = GPU::new();
    let entries = vec![FreqTableEntry { freq: 500000, volt: 625, ddr_opp: 2 }];
    load_freq_table(&mut gpu, &entries).unwrap();
    gpu.set_cur_freq(500000);
    let step = gpu.set_gaming_mode(true);
    assert!(step.is_some());
    assert!(gpu.is_ddr_freq_fixed());
    assert_eq!(gpu.ddr_manager().get_ddr_freq(), 2);
    // Leaving gaming mode releases the pinned memory frequency.
    let step = gpu.set_gaming_mode(false);
    assert!(step.is_some());
    assert!(!gpu.is_ddr_freq_fixed());
    // Leaving it again changes nothing.
    let step = gpu.set_gaming_mode(false);
    assert!(step.is_none());
}

#[test]
fn v1_write_plan_shapes() {
    let mut fm = FrequencyManager::new();
    fm.cur_freq = 400000;
    fm.cur_volt = 62500;
    // Manual mode: disable DVFS, clear the OPP override, write the pair.
    let plan = fm.write_freq(false, false);
    assert_eq!(plan.steps.len(), 3);
    assert_eq!(plan.steps[0].file, CtlFile::DvfsEnable);
    assert_eq!(plan.steps[0].value, CtlValue::Single(0));
    assert_eq!(plan.steps[1].file, CtlFile::V1Opp);
    assert_eq!(plan.steps[2].file, CtlFile::V1Volt);
    assert_eq!(plan.steps[2].value, CtlValue::Pair(400000, 62500));
    // Idle release re-enables autonomous DVFS last.
    let idle = fm.write_freq(false, true);
    assert_eq!(idle.steps.len(), 4);
    assert_eq!(idle.steps[3].file, CtlFile::DvfsEnable);
    assert_eq!(idle.steps[3].value, CtlValue::Single(1));
}

#[test]
fn v2_write_plan_shapes() {
    let mut fm = FrequencyManager::new();
    fm.gpuv2 = true;
    fm.cur_freq = 400000;
    fm.cur_volt = 62500;
    fm.cur_freq_idx = 1;
    // Normal mode: clear, unlock with a settling pause, write the pair.
    let plan = fm.write_freq(false, false);
    assert_eq!(plan.steps.len(), 3);
    assert_eq!(plan.steps[0].value, CtlValue::Pair(0, 0));
    assert_eq!(plan.steps[1].file, CtlFile::V2Opp);
    assert_eq!(plan.steps[1].value, CtlValue::Single(-1));
    assert_eq!(plan.steps[1].fallback, Some(CtlValue::Single(0)));
    assert_eq!(plan.steps[1].delay_after_ms, 10);
    assert_eq!(plan.steps[2].value, CtlValue::Pair(400000, 62500));
    // The DCS fallback at table index zero routes through the release path.
    fm.cur_freq_idx = 0;
    let dcs = fm.write_freq(true, false);
    assert_eq!(dcs.steps.len(), 2);
    assert_eq!(dcs.steps[1].value, CtlValue::Single(-1));
    assert_eq!(dcs.steps[1].delay_after_ms, 0);
    // Without a known voltage the raw frequency goes to the OPP file.
    fm.cur_freq_idx = 1;
    fm.cur_volt = 0;
    let no_volt = fm.write_freq(false, false);
    assert_eq!(no_volt.steps.len(), 2);
    assert_eq!(no_volt.steps[1].value, CtlValue::Single(400000));
}

#[test]
fn delta_sampler_computes_interval_load() {
    let mut sampler = DeltaLoadSampler::new();
    assert_eq!(sampler.update(100, 100, 0), Some(50));
    assert_eq!(sampler.update(300, 200, 0), Some(66));
    // No time passed: no sample.
    assert_eq!(sampler.update(300, 200, 0), None);
    // Protected-mode time counts as busy.
    assert_eq!(sampler.update(300, 300, 100), Some(50));
}

#[test]
fn driver_classification() {
    // Any v1 file selects v1 and disables DCS.
    assert_eq!(classify_driver(true, false, true, true), (false, false));
    // Only v2 files select v2 and enable DCS.
    assert_eq!(classify_driver(false, false, true, false), (true, true));
    assert_eq!(classify_driver(false, false, false, true), (true, true));
    // Nothing found: default to v1.
    assert_eq!(classify_driver(false, false, false, false), (false, false));
}

#[test]
fn v2_support_check() {
    let mut gpu = GPU::new();
    gpu.set_gpuv2(true);
    // No list read: every frequency passes.
    assert!(gpu.is_freq_supported_by_v2_driver(123));
    gpu.set_v2_supported_freqs(vec![400, 800]);
    assert!(gpu.is_freq_supported_by_v2_driver(400));
    assert!(!gpu.is_freq_supported_by_v2_driver(123));
    gpu.set_gpuv2(false);
    assert!(gpu.is_freq_supported_by_v2_driver(123));
}

#[test]
fn games_list_lookup_takes_first_match() {
    let games = vec![
        ("com.game.alpha".to_string(), "fast".to_string()),
        ("com.game.beta".to_string(), "performance".to_string()),
        ("com.game.alpha".to_string(), "powersave".to_string()),
    ];
    let hit = lookup_mode(&games, &"com.game.alpha".to_string());
    assert_eq!(hit, Some(&"fast".to_string()));
    let miss = lookup_mode(&games, &"com.browser".to_string());
    assert_eq!(miss, None);
}

#[test]
fn idle_manager_threshold() {
    let mut idle = IdleManager::new();
    assert_eq!(idle.idle_threshold, 5);
    assert!(!idle.is_idle());
    idle.set_idle_threshold(12);
    assert_eq!(idle.idle_threshold, 12);
    idle.set_idle(true);
    assert!(idle.is_idle());
}
