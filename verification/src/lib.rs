//! Userspace DVFS governor core for a mobile GPU.
//!
//! The library holds the verified decision logic of the governor: the
//! frequency table and its lookups, the tunable strategy bundle, idle and
//! load-trend classification, the DDR coupling rules, and the per-tick
//! control algorithm. All hardware access is expressed as write plans that
//! an unverified front end executes against sysfs.

pub mod analyzer;
pub mod config;
pub mod control;
pub mod ddr;
pub mod detect;
pub mod engine;
pub mod frequency_manager;
pub mod gpu;
pub mod idle;
pub mod sampler;
pub mod strategy;
pub mod table;

pub use analyzer::LoadAnalyzer;
pub use config::{
    apply_config, apply_config_delta, lookup_mode, mode_params, Config, ConfigDelta, Global,
    ModeParams,
};
pub use control::{CtlFile, CtlValue, WritePlan, WriteStep};
pub use ddr::DdrManager;
pub use detect::classify_driver;
pub use engine::{FrequencyAdjustmentEngine, TickAction};
pub use frequency_manager::FrequencyManager;
pub use gpu::{TabType, GPU};
pub use idle::IdleManager;
pub use sampler::DeltaLoadSampler;
pub use strategy::FrequencyStrategy;
pub use table::{load_freq_table, volt_is_valid, FreqTableEntry, TableError};
