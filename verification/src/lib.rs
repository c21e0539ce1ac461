//! Host-side driver logic for a wireless pointing device that speaks HID++.
//!
//! The crate holds the protocol engine and the rules around it as plain,
//! deterministic functions: frames are built and parsed here, replies are
//! matched to requests here, and every decision of the haptic controller is
//! taken here. Reading and writing the device, sleeping and reading the clock
//! are left to the caller, who performs the action a function asks for and
//! hands back what happened.

pub mod battery;
pub mod config;
pub mod cursor;
pub mod dbus;
pub mod evdev;
pub mod hidpp;
pub mod hidraw;
pub mod parse;
pub mod paths;
pub mod text;

pub use battery::BatteryState;
pub use config::Config;
pub use cursor::{CursorPosition, ScreenBounds, EDGE_MARGIN, MENU_DIAMETER, MENU_RADIUS};
pub use dbus::{DBUS_INTERFACE, DBUS_NAME, DBUS_PATH};
pub use evdev::{
    DeviceInfo,
    EvdevError,
    EvdevHandler,
    GestureEvent,
    LogidHandler,
    LOGITECH_VENDOR_ID,
};
pub use hidpp::{HapticEvent, HapticManager};
