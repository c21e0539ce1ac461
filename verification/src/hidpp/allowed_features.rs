//! HID++ feature identifiers that are known to be safe.

use vstd::prelude::*;
use crate::hidpp::features;

verus! {

/// Every feature that is known to be safe to use.
pub const SAFELIST: [u16; 9] = [
    features::I_ROOT,
    features::I_FEATURE_SET,
    features::DEVICE_NAME,
    features::BATTERY_STATUS,
    features::LED_CONTROL,
    features::FORCE_FEEDBACK,
    features::MX_MASTER_4_HAPTIC,
    features::MX4_HAPTIC_ALT,
    features::ADJUSTABLE_DPI,
];

/// Membership in the allowed set.
pub open spec fn spec_is_allowed(feature_id: u16) -> bool {
    ||| feature_id == features::I_ROOT
    ||| feature_id == features::I_FEATURE_SET
    ||| feature_id == features::DEVICE_NAME
    ||| feature_id == features::BATTERY_STATUS
    ||| feature_id == features::LED_CONTROL
    ||| feature_id == features::FORCE_FEEDBACK
    ||| feature_id == features::MX_MASTER_4_HAPTIC
    ||| feature_id == features::MX4_HAPTIC_ALT
    ||| feature_id == features::ADJUSTABLE_DPI
}

/// Whether a feature is explicitly allowed.
#[verifier::when_used_as_spec(spec_is_allowed)]
pub fn is_allowed(feature_id: u16) -> (allowed: bool)
    ensures
        allowed == spec_is_allowed(feature_id),
        allowed == SAFELIST@.contains(feature_id),
{
    let mut i: usize = 0;
    while i < 9
        invariant
            i <= 9,
            forall|j: int| 0 <= j < i ==> SAFELIST@[j] != feature_id,
        decreases 9 - i,
    {
        if SAFELIST[i] == feature_id {
            return true;
        }
        i = i + 1;
    }
    false
}

} // verus!
