//! Control identifiers of the MX Master 4's buttons.

use vstd::prelude::*;

verus! {

/// Middle button.
pub const MIDDLE_BUTTON: u16 = 82;

/// Back button.
pub const BACK_BUTTON: u16 = 83;

/// Forward button.
pub const FORWARD_BUTTON: u16 = 86;

/// Gesture button under the thumb.
pub const GESTURE_BUTTON: u16 = 195;

/// Smart shift: the click of the scroll wheel.
pub const SMART_SHIFT: u16 = 196;

/// Haptic feedback button.
pub const HAPTIC: u16 = 416;

} // verus!
