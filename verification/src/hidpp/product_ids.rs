//! Product identifiers under which an MX Master 4 may show up.

use vstd::prelude::*;

verus! {

/// MX Master 4 on a direct USB connection.
pub const MX_MASTER_4_USB: u16 = 0xB034;

/// MX Master 4 behind a Bolt receiver.
pub const MX_MASTER_4_BOLT: u16 = 0xC548;

/// The Bolt receiver itself.
pub const BOLT_RECEIVER: u16 = 0xC548;

/// Unifying receiver, which may host an MX Master 4.
pub const UNIFYING_RECEIVER: u16 = 0xC52B;

} // verus!
