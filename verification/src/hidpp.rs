//! HID++ protocol engine and the haptic feedback controller built on it.
//!
//! Only volatile, runtime-only commands are ever produced: features that
//! persist state to the device's onboard memory are listed in
//! [`blocklisted_features`] and refused by [`verify_feature_safety`].

use vstd::prelude::*;

pub mod allowed_features;
pub mod blocklisted_features;
pub mod device;
pub mod discovery;
pub mod error;
pub mod exchange;
pub mod features;
pub mod haptic_profiles;
pub mod manager;
pub mod message;
pub mod patterns;
pub mod product_ids;
pub mod report_type;
pub mod safety;
pub mod scroll;
pub mod setup;

pub use device::HidppDevice;
pub use discovery::ConnectionType;
pub use error::HapticError;
pub use manager::{
    ConnectionState,
    EmitAction,
    HapticManager,
    ReconnectAction,
    DEFAULT_REENTRY_DEBOUNCE_MS,
    DEFAULT_SLICE_DEBOUNCE_MS,
    RECONNECT_COOLDOWN_MS,
};
pub use message::{HidppLongMessage, HidppShortMessage};
pub use patterns::{
    HapticEvent,
    HapticPattern,
    HapticPulse,
    Mx4HapticPattern,
    PatternStep,
    PerEventPattern,
};
pub use safety::verify_feature_safety;
pub use setup::SessionSetup;

verus! {

/// Logitech vendor identifier.
pub const LOGITECH_VENDOR_ID: u16 = 0x046D;

} // verus!
