//! Errors of the HID++ engine and of the haptic controller.

use vstd::prelude::*;
use vstd::string::StringExecFns;

verus! {

/// `std::io::Error` of the standard library. The library carries such an
/// error through as it is and never looks inside.
#[verifier::external_type_specification]
#[verifier::external_body]
pub struct ExIoError(std::io::Error);

/// What can go wrong while talking to the device.
#[derive(Debug)]
pub enum HapticError {
    /// No compatible device was found.
    DeviceNotFound,
    /// The operating system denied access to the device.
    PermissionDenied,
    /// The device has no haptic motor.
    UnsupportedDevice,
    /// The capability was never discovered on this device.
    NotSupported,
    /// The exchange with the device failed.
    CommunicationError,
    /// An I/O error, as the operating system reported it.
    IoError(std::io::Error),
    /// A reply had an unexpected shape.
    ProtocolError(String),
    /// A forbidden feature was about to be used. This is a programming defect,
    /// never a runtime condition: such a feature writes to onboard memory.
    SafetyViolation { feature_id: u16, reason: &'static str },
}

/// The upper-case hexadecimal digit of a value below 16.
pub open spec fn hex_digit(nibble: u8) -> &'static str {
    if nibble == 0 {
        "0"
    } else if nibble == 1 {
        "1"
    } else if nibble == 2 {
        "2"
    } else if nibble == 3 {
        "3"
    } else if nibble == 4 {
        "4"
    } else if nibble == 5 {
        "5"
    } else if nibble == 6 {
        "6"
    } else if nibble == 7 {
        "7"
    } else if nibble == 8 {
        "8"
    } else if nibble == 9 {
        "9"
    } else if nibble == 10 {
        "A"
    } else if nibble == 11 {
        "B"
    } else if nibble == 12 {
        "C"
    } else if nibble == 13 {
        "D"
    } else if nibble == 14 {
        "E"
    } else {
        "F"
    }
}

/// A 16-bit value as four upper-case hexadecimal digits, most significant
/// first.
pub open spec fn hex4(value: u16) -> Seq<char> {
    hex_digit(((value >> 12) & 0x0F) as u8)@ + hex_digit(((value >> 8) & 0x0F) as u8)@
        + hex_digit(((value >> 4) & 0x0F) as u8)@ + hex_digit((value & 0x0F) as u8)@
}

fn hex_digit_str(nibble: u8) -> (digit: &'static str)
    ensures
        digit == hex_digit(nibble),
{
    if nibble == 0 {
        "0"
    } else if nibble == 1 {
        "1"
    } else if nibble == 2 {
        "2"
    } else if nibble == 3 {
        "3"
    } else if nibble == 4 {
        "4"
    } else if nibble == 5 {
        "5"
    } else if nibble == 6 {
        "6"
    } else if nibble == 7 {
        "7"
    } else if nibble == 8 {
        "8"
    } else if nibble == 9 {
        "9"
    } else if nibble == 10 {
        "A"
    } else if nibble == 11 {
        "B"
    } else if nibble == 12 {
        "C"
    } else if nibble == 13 {
        "D"
    } else if nibble == 14 {
        "E"
    } else {
        "F"
    }
}

/// The text of a safety violation.
pub open spec fn safety_violation_text(feature_id: u16, reason: &'static str) -> Seq<char> {
    "SAFETY VIOLATION: Blocked feature 0x"@ + hex4(feature_id) + " - "@ + reason@
}

impl HapticError {
    /// The text of every error whose text does not depend on the operating
    /// system.
    pub open spec fn spec_text(&self) -> Seq<char> {
        match self {
            HapticError::DeviceNotFound => "MX Master 4 device not found"@,
            HapticError::PermissionDenied => "Permission denied accessing HID device"@,
            HapticError::UnsupportedDevice => "Device does not support haptic feedback"@,
            HapticError::NotSupported => "Feature not supported on this device"@,
            HapticError::CommunicationError => "Communication error with device"@,
            HapticError::IoError(_) => "I/O error: "@,
            HapticError::ProtocolError(msg) => "HID++ protocol error: "@ + msg@,
            HapticError::SafetyViolation { feature_id, reason } => safety_violation_text(
                *feature_id,
                *reason,
            ),
        }
    }

    /// The error of the operating system that lies behind this error; only
    /// an I/O error has one.
    pub fn source(&self) -> (cause: Option<&std::io::Error>)
        ensures
            cause is Some <==> self is IoError,
            cause matches Some(e) ==> *self == HapticError::IoError(*e),
    {
        match self {
            HapticError::IoError(e) => Some(e),
            _ => None,
        }
    }

    /// A human-readable description of the error. For an I/O error the
    /// operating system's own description follows the prefix.
    pub fn to_string(&self) -> (text: String)
        ensures
            !(self is IoError) ==> text@ == self.spec_text(),
            self is IoError ==> self.spec_text().is_prefix_of(text@),
    {
        match self {
            HapticError::DeviceNotFound => String::from_str("MX Master 4 device not found"),
            HapticError::PermissionDenied => String::from_str(
                "Permission denied accessing HID device",
            ),
            HapticError::UnsupportedDevice => String::from_str(
                "Device does not support haptic feedback",
            ),
            HapticError::NotSupported => String::from_str("Feature not supported on this device"),
            HapticError::CommunicationError => String::from_str("Communication error with device"),
            HapticError::IoError(e) => {
                let detail: String = e.to_string();
                String::from_str("I/O error: ").concat(detail.as_str())
            },
            HapticError::ProtocolError(msg) => String::from_str("HID++ protocol error: ").concat(
                msg.as_str(),
            ),
            HapticError::SafetyViolation { feature_id, reason } => {
                let id: u16 = *feature_id;
                let mut text = String::from_str("SAFETY VIOLATION: Blocked feature 0x");
                text.append(hex_digit_str(((id >> 12) & 0x0F) as u8));
                text.append(hex_digit_str(((id >> 8) & 0x0F) as u8));
                text.append(hex_digit_str(((id >> 4) & 0x0F) as u8));
                text.append(hex_digit_str((id & 0x0F) as u8));
                text.append(" - ");
                text.append(*reason);
                text
            },
        }
    }
}

} // verus!
