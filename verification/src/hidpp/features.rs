//! HID++ 2.0 feature identifiers that are safe at runtime: each is read-only
//! or volatile.

use vstd::prelude::*;

verus! {

/// IRoot: protocol version and ping (read-only).
pub const I_ROOT: u16 = 0x0000;

/// IFeatureSet: enumeration of the device's features (read-only).
pub const I_FEATURE_SET: u16 = 0x0001;

/// Device name and type (read-only).
pub const DEVICE_NAME: u16 = 0x0005;

/// Battery status (read-only).
pub const BATTERY_STATUS: u16 = 0x1000;

/// LED control (runtime-only).
pub const LED_CONTROL: u16 = 0x1300;

/// Force feedback, as on racing wheels (runtime-only).
pub const FORCE_FEEDBACK: u16 = 0x8123;

/// MX Master 4 haptic motor, driven by waveform identifiers (runtime-only).
pub const MX_MASTER_4_HAPTIC: u16 = 0x19B0;

/// Alternative identifier under which some MX Master 4 devices report their
/// haptic motor.
pub const MX4_HAPTIC_ALT: u16 = 0x0B4E;

/// Adjustable DPI: pointer sensitivity. The device remembers the value, which
/// is what a user expects of a DPI setting.
pub const ADJUSTABLE_DPI: u16 = 0x2201;

} // verus!
