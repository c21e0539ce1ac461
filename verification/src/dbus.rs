//! Names under which the daemon is reached on the session bus.

use vstd::prelude::*;

verus! {

/// Name of the interface.
pub const DBUS_INTERFACE: &'static str = "org.kde.juhradialmx.Daemon";

/// Path of the object.
pub const DBUS_PATH: &'static str = "/org/kde/juhradialmx/Daemon";

/// Name of the service on the bus.
pub const DBUS_NAME: &'static str = "org.kde.juhradialmx";

/// Name of the profile that is active at start.
pub const DEFAULT_PROFILE: &'static str = "default";

} // verus!
