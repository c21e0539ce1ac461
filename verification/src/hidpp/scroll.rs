//! Scroll-wheel ratchet behaviour, as the control surface and the device
//! each put it.
//!
//! The control surface speaks of an automatic mode with a sensitivity
//! threshold; the device speaks of a wheel mode with an auto-disengage
//! value.

use vstd::prelude::*;

verus! {

/// How the scroll wheel turns.
#[derive(Debug, Clone, Copy, PartialEq, Eq, Structural)]
pub enum WheelMode {
    /// The wheel spins freely and engages the ratchet by itself.
    Freespin,
    /// The ratchet is always engaged.
    Ratchet,
}

/// The device's pair of parameters for the ratchet.
#[derive(Debug, Clone, Copy, PartialEq, Eq, Structural)]
pub struct RatchetParameters {
    /// The wheel mode.
    pub mode: WheelMode,
    /// Speed at which the ratchet disengages; zero where it never does.
    pub auto_disengage: u8,
}

/// The parameters for a setting of the control surface: automatic mode is
/// free spin with the threshold as auto-disengage value, and everything else
/// is a forced ratchet with an auto-disengage value of zero.
pub open spec fn spec_ratchet_parameters(enabled: bool, threshold: u8) -> RatchetParameters {
    if enabled {
        RatchetParameters { mode: WheelMode::Freespin, auto_disengage: threshold }
    } else {
        RatchetParameters { mode: WheelMode::Ratchet, auto_disengage: 0 }
    }
}

/// The setting that the control surface shows for the device's parameters:
/// whether the mode is automatic, and the threshold.
pub open spec fn spec_ratchet_setting(parameters: RatchetParameters) -> (bool, u8) {
    (parameters.mode == WheelMode::Freespin, parameters.auto_disengage)
}

/// Maps a setting of the control surface onto the device's parameters.
#[verifier::when_used_as_spec(spec_ratchet_parameters)]
pub fn ratchet_parameters(enabled: bool, threshold: u8) -> (parameters: RatchetParameters)
    ensures
        parameters == spec_ratchet_parameters(enabled, threshold),
{
    if enabled {
        RatchetParameters { mode: WheelMode::Freespin, auto_disengage: threshold }
    } else {
        RatchetParameters { mode: WheelMode::Ratchet, auto_disengage: 0 }
    }
}

/// Maps the device's parameters onto the setting that the control surface
/// shows.
#[verifier::when_used_as_spec(spec_ratchet_setting)]
pub fn ratchet_setting(parameters: RatchetParameters) -> (setting: (bool, u8))
    ensures
        setting == spec_ratchet_setting(parameters),
{
    (parameters.mode == WheelMode::Freespin, parameters.auto_disengage)
}

/// A setting that was written is read back: an enabled automatic mode with
/// its threshold, a disabled one with a threshold of zero.
pub proof fn lemma_ratchet_round_trip(enabled: bool, threshold: u8)
    ensures
        spec_ratchet_setting(spec_ratchet_parameters(enabled, threshold)) == (
            enabled,
            if enabled {
                threshold
            } else {
                0u8
            },
        ),
{
}

} // verus!
