//! Idle state of the GPU as the control loop sees it: a flag plus the load
//! threshold at or below which a tick is treated as idle.

use vstd::prelude::*;

verus! {

/// Default idle threshold in load percent.
pub const IDLE_THRESHOLD: i32 = 5;

/// Idle flag and threshold of the controller.
#[derive(Clone, Copy, Debug, PartialEq, Eq, Structural)]
pub struct IdleManager {
    /// Whether the controller currently treats the GPU as idle.
    pub is_idle: bool,
    /// Load percentage at or below which a sample counts as idle.
    pub idle_threshold: i32,
}

impl IdleManager {
    pub fn new() -> (r: Self)
        ensures
            r == (IdleManager { is_idle: false, idle_threshold: IDLE_THRESHOLD }),
    {
        Self { is_idle: false, idle_threshold: IDLE_THRESHOLD }
    }

    pub fn set_idle_threshold(&mut self, threshold: i32)
        ensures
            *final(self) == (IdleManager { idle_threshold: threshold, ..*old(self) }),
    {
        self.idle_threshold = threshold;
    }

    pub fn is_idle(&self) -> (r: bool)
        ensures
            r == self.is_idle,
    {
        self.is_idle
    }

    pub fn set_idle(&mut self, idle: bool)
        ensures
            *final(self) == (IdleManager { is_idle: idle, ..*old(self) }),
    {
        self.is_idle = idle;
    }
}

impl Default for IdleManager {
    fn default() -> (r: Self)
        ensures
            r == (IdleManager { is_idle: false, idle_threshold: IDLE_THRESHOLD }),
    {
        Self::new()
    }
}

} // verus!
