//! HID++ feature identifiers that must never be used: each writes to the
//! device's onboard memory and would change how the mouse behaves on other
//! hosts.

use vstd::prelude::*;

verus! {

/// Special keys and mouse buttons: persistent button remapping.
pub const SPECIAL_KEYS: u16 = 0x1B04;

/// Report rate: may persist on some devices.
pub const REPORT_RATE: u16 = 0x8060;

/// Onboard profiles: persistent profile storage.
pub const ONBOARD_PROFILES: u16 = 0x8100;

/// Mode status: profile switching that may persist.
pub const MODE_STATUS: u16 = 0x8090;

/// Mouse button spy: profile modification.
pub const MOUSE_BUTTON_SPY: u16 = 0x8110;

/// Persistent remappable action: persistent key remapping.
pub const PERSISTENT_REMAPPABLE_ACTION: u16 = 0x1BC0;

/// Host info: device pairing that persists.
pub const HOST_INFO: u16 = 0x1815;

/// Membership in the forbidden set.
pub open spec fn spec_is_blocklisted(feature_id: u16) -> bool {
    ||| feature_id == SPECIAL_KEYS
    ||| feature_id == REPORT_RATE
    ||| feature_id == ONBOARD_PROFILES
    ||| feature_id == MODE_STATUS
    ||| feature_id == MOUSE_BUTTON_SPY
    ||| feature_id == PERSISTENT_REMAPPABLE_ACTION
    ||| feature_id == HOST_INFO
}

/// Why each forbidden feature is forbidden; `None` outside the forbidden set.
pub open spec fn spec_blocklist_reason(feature_id: u16) -> Option<&'static str> {
    if feature_id == SPECIAL_KEYS {
        Some("Persistent button remapping")
    } else if feature_id == REPORT_RATE {
        Some("May persist report rate settings")
    } else if feature_id == ONBOARD_PROFILES {
        Some("Persistent profile storage")
    } else if feature_id == MODE_STATUS {
        Some("Profile switching may persist")
    } else if feature_id == MOUSE_BUTTON_SPY {
        Some("Profile modification")
    } else if feature_id == PERSISTENT_REMAPPABLE_ACTION {
        Some("Persistent key remapping")
    } else if feature_id == HOST_INFO {
        Some("Device pairing persistence")
    } else {
        None
    }
}

/// Whether a feature writes to onboard memory and is therefore forbidden.
#[verifier::when_used_as_spec(spec_is_blocklisted)]
pub fn is_blocklisted(feature_id: u16) -> (blocked: bool)
    ensures
        blocked == spec_is_blocklisted(feature_id),
{
    feature_id == SPECIAL_KEYS || feature_id == REPORT_RATE || feature_id == ONBOARD_PROFILES
        || feature_id == MODE_STATUS || feature_id == MOUSE_BUTTON_SPY
        || feature_id == PERSISTENT_REMAPPABLE_ACTION || feature_id == HOST_INFO
}

/// Human-readable reason for which a feature is forbidden.
#[verifier::when_used_as_spec(spec_blocklist_reason)]
pub fn blocklist_reason(feature_id: u16) -> (reason: Option<&'static str>)
    ensures
        reason == spec_blocklist_reason(feature_id),
        reason.is_some() <==> spec_is_blocklisted(feature_id),
{
    if feature_id == SPECIAL_KEYS {
        Some("Persistent button remapping")
    } else if feature_id == REPORT_RATE {
        Some("May persist report rate settings")
    } else if feature_id == ONBOARD_PROFILES {
        Some("Persistent profile storage")
    } else if feature_id == MODE_STATUS {
        Some("Profile switching may persist")
    } else if feature_id == MOUSE_BUTTON_SPY {
        Some("Profile modification")
    } else if feature_id == PERSISTENT_REMAPPABLE_ACTION {
        Some("Persistent key remapping")
    } else if feature_id == HOST_INFO {
        Some("Device pairing persistence")
    } else {
        None
    }
}

} // verus!
