//! Tunable strategy bundle of the governor: margin, debounce delays,
//! sampling interval and the aggressive-down flag. The bundle is always
//! swapped or configured as a unit so the control loop never sees a
//! partially updated policy.

use vstd::prelude::*;

verus! {

/// Policy tunables for the frequency controller.
///
/// `margin` is the percentage headroom added to the observed load before a
/// target frequency is computed; the two debounce times are the minimum
/// elapsed milliseconds between two adjustments in the same direction.
#[derive(Clone, Copy, Debug, PartialEq, Eq, Structural)]
pub struct FrequencyStrategy {
    /// Minimum delay between two upward frequency changes (ms).
    pub up_debounce_time: u64,
    /// Minimum delay between two downward frequency changes (ms).
    pub down_debounce_time: u64,
    /// Percentage headroom added to the load before computing a target.
    pub margin: u32,
    /// Trigger threshold of the down counter; zero disables it.
    pub down_counter_threshold: u32,
    /// Whether aggressive down-stepping is enabled.
    pub aggressive_down: bool,
    /// Sampling interval between load reads (ms).
    pub sampling_interval: u64,
    /// Timestamp of the last applied frequency change (ms).
    pub last_adjustment_time: u64,
}

impl FrequencyStrategy {
    pub fn new(up_time: u64, down_time: u64) -> (r: Self)
        ensures
            r == (FrequencyStrategy {
                up_debounce_time: up_time,
                down_debounce_time: down_time,
                margin: 50u32,
                down_counter_threshold: 0u32,
                aggressive_down: true,
                sampling_interval: 8u64,
                last_adjustment_time: 0u64,
            }),
    {
        Self {
            up_debounce_time: up_time,
            margin: 50,
            down_counter_threshold: 0,
            aggressive_down: true,
            sampling_interval: 8,
            last_adjustment_time: 0,
            down_debounce_time: down_time,
        }
    }

    pub fn set_margin(&mut self, margin: u32)
        ensures
            *final(self) == (FrequencyStrategy { margin, ..*old(self) }),
    {
        self.margin = margin;
    }

    pub fn set_down_counter_threshold(&mut self, threshold: u32)
        ensures
            *final(self) == (FrequencyStrategy { down_counter_threshold: threshold, ..*old(self) }),
    {
        self.down_counter_threshold = threshold;
    }

    pub fn set_aggressive_down(&mut self, enable: bool)
        ensures
            *final(self) == (FrequencyStrategy { aggressive_down: enable, ..*old(self) }),
    {
        self.aggressive_down = enable;
    }

    pub fn set_sampling_interval(&mut self, interval: u64)
        ensures
            *final(self) == (FrequencyStrategy { sampling_interval: interval, ..*old(self) }),
    {
        self.sampling_interval = interval;
    }

    pub fn get_sampling_interval(&self) -> (r: u64)
        ensures
            r == self.sampling_interval,
    {
        self.sampling_interval
    }

    pub fn get_margin(&self) -> (r: u32)
        ensures
            r == self.margin,
    {
        self.margin
    }

    pub fn get_down_counter_threshold(&self) -> (r: u32)
        ensures
            r == self.down_counter_threshold,
    {
        self.down_counter_threshold
    }

    pub fn update_last_adjustment_time(&mut self, time: u64)
        ensures
            *final(self) == (FrequencyStrategy { last_adjustment_time: time, ..*old(self) }),
    {
        self.last_adjustment_time = time;
    }

    pub fn set_up_rate_delay(&mut self, delay: u64)
        ensures
            *final(self) == (FrequencyStrategy { up_debounce_time: delay, ..*old(self) }),
    {
        self.up_debounce_time = delay;
    }

    pub fn set_debounce_times(&mut self, up_time: u64, down_time: u64)
        ensures
            *final(self) == (FrequencyStrategy {
                up_debounce_time: up_time,
                down_debounce_time: down_time,
                ..*old(self)
            }),
    {
        self.up_debounce_time = up_time;
        self.down_debounce_time = down_time;
    }
}

impl Default for FrequencyStrategy {
    fn default() -> (r: Self)
        ensures
            r == (FrequencyStrategy {
                up_debounce_time: 500u64,
                down_debounce_time: 500u64,
                margin: 50u32,
                down_counter_threshold: 0u32,
                aggressive_down: true,
                sampling_interval: 8u64,
                last_adjustment_time: 0u64,
            }),
    {
        Self::new(500, 500)
    }
}

} // verus!
