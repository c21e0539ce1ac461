//! Intensity and duration of the legacy pulse for each menu event.

use vstd::prelude::*;
use crate::hidpp::patterns::HapticPulse;

verus! {

/// Menu appearance: 20% intensity for 10 ms.
pub open spec fn spec_menu_appear() -> HapticPulse {
    HapticPulse { intensity: 20, duration_ms: 10 }
}

/// Slice change: 40% intensity for 15 ms.
pub open spec fn spec_slice_change() -> HapticPulse {
    HapticPulse { intensity: 40, duration_ms: 15 }
}

/// Selection confirmed: 80% intensity for 25 ms.
pub open spec fn spec_confirm() -> HapticPulse {
    HapticPulse { intensity: 80, duration_ms: 25 }
}

/// Invalid action: 30% intensity for 50 ms.
pub open spec fn spec_invalid() -> HapticPulse {
    HapticPulse { intensity: 30, duration_ms: 50 }
}

/// Menu appearance: 20% intensity for 10 ms.
#[verifier::when_used_as_spec(spec_menu_appear)]
pub fn menu_appear() -> (pulse: HapticPulse)
    ensures
        pulse == spec_menu_appear(),
{
    HapticPulse { intensity: 20, duration_ms: 10 }
}

/// Slice change: 40% intensity for 15 ms.
#[verifier::when_used_as_spec(spec_slice_change)]
pub fn slice_change() -> (pulse: HapticPulse)
    ensures
        pulse == spec_slice_change(),
{
    HapticPulse { intensity: 40, duration_ms: 15 }
}

/// Selection confirmed: 80% intensity for 25 ms.
#[verifier::when_used_as_spec(spec_confirm)]
pub fn confirm() -> (pulse: HapticPulse)
    ensures
        pulse == spec_confirm(),
{
    HapticPulse { intensity: 80, duration_ms: 25 }
}

/// Invalid action: 30% intensity for 50 ms.
#[verifier::when_used_as_spec(spec_invalid)]
pub fn invalid() -> (pulse: HapticPulse)
    ensures
        pulse == spec_invalid(),
{
    HapticPulse { intensity: 30, duration_ms: 50 }
}

} // verus!
