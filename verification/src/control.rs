//! Write plans: the library's description of the sysfs writes the governor
//! wants performed. The decision logic builds a plan from verified state;
//! the unverified front end maps each control file to its platform path,
//! renders the values as text and performs the writes, skipping files that
//! the running kernel does not expose.

use vstd::prelude::*;

verus! {

/// A kernel control file the governor writes to, named abstractly.
#[derive(Clone, Copy, Debug, PartialEq, Eq, Structural)]
pub enum CtlFile {
    /// v1 driver fixed (frequency, voltage) file.
    V1Volt,
    /// v1 driver OPP override file.
    V1Opp,
    /// v2 driver custom (frequency, voltage) override file.
    V2Volt,
    /// v2 driver fixed OPP index file.
    V2Opp,
    /// Autonomous DVFS enable switch of the v1 driver.
    DvfsEnable,
    /// v1 DVFSRC forced VCORE OPP file.
    DdrV1,
    /// v2 DVFSRC forced VCORE OPP file (a short list of candidate paths;
    /// the first that accepts the write wins).
    DdrV2,
}

/// The payload of one write: a single integer, or a "frequency voltage" pair.
#[derive(Clone, Copy, Debug, PartialEq, Eq, Structural)]
pub enum CtlValue {
    Single(i64),
    Pair(i64, i64),
}

/// One write to a control file. If the write is rejected and `fallback` is
/// set, the fallback value is written instead. `delay_after_ms` asks the
/// executor to pause before the next step.
#[derive(Clone, Copy, Debug, PartialEq, Eq)]
pub struct WriteStep {
    pub file: CtlFile,
    pub value: CtlValue,
    pub fallback: Option<CtlValue>,
    pub delay_after_ms: u64,
}

impl WriteStep {
    /// A plain write with no fallback and no delay.
    pub open spec fn spec_plain(file: CtlFile, value: CtlValue) -> WriteStep {
        WriteStep { file, value, fallback: None, delay_after_ms: 0 }
    }

    pub fn plain(file: CtlFile, value: CtlValue) -> (r: WriteStep)
        ensures
            r == WriteStep::spec_plain(file, value),
    {
        WriteStep { file, value, fallback: None, delay_after_ms: 0 }
    }
}

/// An ordered list of writes to perform in one control action.
#[derive(Clone, Debug, PartialEq, Eq)]
pub struct WritePlan {
    pub steps: Vec<WriteStep>,
}

impl WritePlan {
    pub fn new() -> (r: WritePlan)
        ensures
            r.steps@ =~= Seq::<WriteStep>::empty(),
    {
        WritePlan { steps: Vec::new() }
    }

    pub fn push(&mut self, step: WriteStep)
        ensures
            final(self).steps@ =~= old(self).steps@.push(step),
    {
        self.steps.push(step);
    }
}

} // verus!
