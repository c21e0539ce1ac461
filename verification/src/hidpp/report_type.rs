//! Leading byte of a HID++ report, by report size.

use vstd::prelude::*;

verus! {

/// Short report, 7 bytes.
pub const SHORT: u8 = 0x10;

/// Long report, 20 bytes.
pub const LONG: u8 = 0x11;

/// Very long report, 64 bytes.
pub const VERY_LONG: u8 = 0x12;

} // verus!
