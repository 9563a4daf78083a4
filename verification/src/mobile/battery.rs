//! The battery-optimisation state reported by the phone.

use vstd::prelude::*;
use crate::text::to_owned_string;

verus! {

/// Whether the app is exempt from battery optimisation, the phone's brand
/// (lower case) and whether that brand has its own settings page.
#[derive(Clone, Debug)]
pub struct BatteryOptimizationInfo {
    pub ignoring: bool,
    pub brand: String,
    pub has_vendor_target: bool,
}

/// The state from the fields the platform reported; a missing field reads
/// as `false` or empty.
pub fn battery_optimization_info(
    ignoring: Option<bool>,
    brand: Option<String>,
    has_vendor_target: Option<bool>,
) -> (r: BatteryOptimizationInfo)
    ensures
        r.ignoring == (ignoring == Some(true)),
        r.brand@ == (match brand {
            Some(b) => b@,
            None => ""@,
        }),
        r.has_vendor_target == (has_vendor_target == Some(true)),
{
    BatteryOptimizationInfo {
        ignoring: match ignoring {
            Some(b) => b,
            None => false,
        },
        brand: match brand {
            Some(b) => b,
            None => to_owned_string(""),
        },
        has_vendor_target: match has_vendor_target {
            Some(b) => b,
            None => false,
        },
    }
}

} // verus!
