//! DDR (memory) frequency coupling. The manager holds either a fixed OPP
//! index of the five canonical tiers or an auto sentinel, which differs by
//! driver generation, and renders its state as a single write step against
//! the DVFSRC control file.

use vstd::prelude::*;

use crate::control::{CtlFile, CtlValue, WriteStep};

verus! {

/// Auto mode sentinel written to the v1 DVFSRC file.
pub const DDR_AUTO_MODE_V1: i64 = -1;

/// Auto mode sentinel written to the v2 DVFSRC file.
pub const DDR_AUTO_MODE_V2: i64 = 999;

/// Highest-tier DDR OPP (most performance).
pub const DDR_HIGHEST_FREQ: i64 = 0;

/// Second-tier DDR OPP.
pub const DDR_SECOND_FREQ: i64 = 1;

/// Third-tier DDR OPP.
pub const DDR_THIRD_FREQ: i64 = 2;

/// Fourth-tier DDR OPP.
pub const DDR_FOURTH_FREQ: i64 = 3;

/// Fifth-tier DDR OPP (least power).
pub const DDR_FIFTH_FREQ: i64 = 4;

/// The auto sentinel of the detected driver generation.
pub open spec fn spec_ddr_auto_value(gpuv2: bool) -> i64 {
    if gpuv2 {
        DDR_AUTO_MODE_V2
    } else {
        DDR_AUTO_MODE_V1
    }
}

/// Manager of the memory frequency OPP.
#[derive(Clone, Debug, PartialEq, Eq)]
pub struct DdrManager {
    /// Whether the memory frequency is pinned to a fixed OPP.
    pub ddr_freq_fixed: bool,
    /// The pinned OPP index, or the auto sentinel when not pinned.
    pub ddr_freq: i64,
    /// DDR OPP values the v2 driver reports as available.
    pub ddr_v2_supported_freqs: Vec<i64>,
    /// Whether the v2 driver generation is in control.
    pub gpuv2: bool,
}

impl DdrManager {
    /// The (fixed, value) state that a request classifies to: the auto
    /// sentinel and negative values release to auto mode, small values are
    /// direct OPP indices, anything at or above one hundred is a real
    /// frequency and maps to the highest tier.
    pub open spec fn spec_state_after_set(self, freq: i64) -> (bool, i64) {
        if freq == DDR_AUTO_MODE_V2 {
            (false, spec_ddr_auto_value(self.gpuv2))
        } else if freq == DDR_HIGHEST_FREQ {
            (true, DDR_HIGHEST_FREQ)
        } else if freq < 0 {
            (false, spec_ddr_auto_value(self.gpuv2))
        } else if freq < 100 {
            (true, freq)
        } else {
            (true, DDR_HIGHEST_FREQ)
        }
    }

    /// The write that commits the current DDR state: the pinned OPP when
    /// fixed, the driver's auto sentinel when not.
    pub open spec fn spec_ddr_write_step(self) -> WriteStep {
        WriteStep::spec_plain(
            if self.gpuv2 {
                CtlFile::DdrV2
            } else {
                CtlFile::DdrV1
            },
            CtlValue::Single(
                if self.ddr_freq_fixed {
                    self.ddr_freq
                } else {
                    spec_ddr_auto_value(self.gpuv2)
                },
            ),
        )
    }

    pub fn new() -> (r: Self)
        ensures
            !r.ddr_freq_fixed,
            r.ddr_freq == 0,
            r.ddr_v2_supported_freqs@ =~= Seq::<i64>::empty(),
            !r.gpuv2,
    {
        Self {
            ddr_freq_fixed: false,
            ddr_freq: 0,
            ddr_v2_supported_freqs: Vec::new(),
            gpuv2: false,
        }
    }

    /// Classify a DDR request, update the state, and hand back the write
    /// that commits it.
    pub fn set_ddr_freq(&mut self, freq: i64) -> (step: WriteStep)
        ensures
            *final(self) == (DdrManager {
                ddr_freq_fixed: old(self).spec_state_after_set(freq).0,
                ddr_freq: old(self).spec_state_after_set(freq).1,
                ..*old(self)
            }),
            step == final(self).spec_ddr_write_step(),
    {
        if freq == DDR_AUTO_MODE_V2 || freq < 0 {
            self.ddr_freq = if self.gpuv2 {
                DDR_AUTO_MODE_V2
            } else {
                DDR_AUTO_MODE_V1
            };
            self.ddr_freq_fixed = false;
        } else if freq < 100 {
            self.ddr_freq = freq;
            self.ddr_freq_fixed = true;
        } else {
            self.ddr_freq = DDR_HIGHEST_FREQ;
            self.ddr_freq_fixed = true;
        }
        self.write_ddr_freq()
    }

    /// The write that commits the current DDR state to the DVFSRC file of
    /// the detected driver generation.
    pub fn write_ddr_freq(&self) -> (step: WriteStep)
        ensures
            step == self.spec_ddr_write_step(),
    {
        let file = if self.gpuv2 {
            CtlFile::DdrV2
        } else {
            CtlFile::DdrV1
        };
        let value = if self.ddr_freq_fixed {
            self.ddr_freq
        } else if self.gpuv2 {
            DDR_AUTO_MODE_V2
        } else {
            DDR_AUTO_MODE_V1
        };
        WriteStep::plain(file, CtlValue::Single(value))
    }

    pub fn is_ddr_freq_fixed(&self) -> (r: bool)
        ensures
            r == self.ddr_freq_fixed,
    {
        self.ddr_freq_fixed
    }

    pub fn get_ddr_freq(&self) -> (r: i64)
        ensures
            r == self.ddr_freq,
    {
        self.ddr_freq
    }

    pub fn get_ddr_v2_supported_freqs(&self) -> (r: Vec<i64>)
        ensures
            r@ == self.ddr_v2_supported_freqs@,
    {
        self.ddr_v2_supported_freqs.clone()
    }

    pub fn set_ddr_v2_supported_freqs(&mut self, ddr_v2_supported_freqs: Vec<i64>)
        ensures
            *final(self) == (DdrManager { ddr_v2_supported_freqs, ..*old(self) }),
    {
        self.ddr_v2_supported_freqs = ddr_v2_supported_freqs;
    }

    pub fn set_gpuv2(&mut self, gpuv2: bool)
        ensures
            *final(self) == (DdrManager { gpuv2, ..*old(self) }),
    {
        self.gpuv2 = gpuv2;
    }
}

impl Default for DdrManager {
    fn default() -> (r: Self)
        ensures
            !r.ddr_freq_fixed,
            r.ddr_freq == 0,
            !r.gpuv2,
    {
        Self::new()
    }
}

} // verus!
