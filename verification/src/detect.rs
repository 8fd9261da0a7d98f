//! Driver-generation detection from the presence of the kernel control
//! files. The front end probes which files exist and are readable; the
//! classification of what it found is decided here.

use vstd::prelude::*;

verus! {

/// Classify the driver generation from the probed control files: any v1
/// file selects the v1 driver; otherwise any v2 file selects the v2 driver,
/// which also enables the DCS fallback; with no file at all the governor
/// defaults to v1 (and will not be able to control the hardware).
///
/// Returns `(gpuv2, dcs_enable)`.
pub fn classify_driver(
    v1_volt_exists: bool,
    v1_opp_exists: bool,
    v2_volt_exists: bool,
    v2_opp_exists: bool,
) -> (r: (bool, bool))
    ensures
        r.0 == (!(v1_volt_exists || v1_opp_exists) && (v2_volt_exists || v2_opp_exists)),
        r.1 == r.0,
{
    if v1_volt_exists || v1_opp_exists {
        (false, false)
    } else if v2_volt_exists || v2_opp_exists {
        (true, true)
    } else {
        (false, false)
    }
}

} // verus!
