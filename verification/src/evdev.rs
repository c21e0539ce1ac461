//! Gesture-button handling on the kernel's input event stream.
//!
//! The caller opens the input devices and reads their events; which device
//! is the mouse, and what each event means for the radial menu, is decided
//! here.

use vstd::prelude::*;
use vstd::string::StringExecFns;
use crate::text::{same_text, starts_with, spec_starts_with};

verus! {

/// Logitech vendor identifier.
pub const LOGITECH_VENDOR_ID: u16 = 0x046D;

/// Product identifiers of the MX Master 4, by connection type.
pub const MX_MASTER_4_PRODUCT_IDS: [u16; 4] = [0xB034, 0xB035, 0x4082, 0xC548];

/// Key codes of the gesture button: `BTN_BACK`, the haptic thumb button.
pub const GESTURE_BUTTON_CODES: [u16; 1] = [0x116];

/// Key code that LogiOps sends for the gesture button: `KEY_F19`.
pub const LOGID_GESTURE_KEY: u16 = 189;

/// Key code of `BTN_SIDE`.
pub const BTN_SIDE: u16 = 0x113;

/// Key code of `BTN_EXTRA`.
pub const BTN_EXTRA: u16 = 0x114;

/// Event type of key and button events.
pub const EV_KEY: u16 = 0x01;

/// Event type of relative-axis events.
pub const EV_REL: u16 = 0x02;

/// Code of the relative X axis.
pub const REL_X: u16 = 0x00;

/// Code of the relative Y axis.
pub const REL_Y: u16 = 0x01;

/// Seconds between two searches for a device that is not connected.
pub const DEVICE_POLL_INTERVAL_SECS: u64 = 2;

/// Name under which LogiOps registers its virtual input device.
pub const LOGID_DEVICE_NAME: &'static str = "LogiOps Virtual Input";

/// What the gesture button did.
#[derive(Debug, Clone, Copy, PartialEq, Eq, Structural)]
pub enum GestureEvent {
    /// The button was pressed with the cursor at this position.
    Pressed { x: i32, y: i32 },
    /// The button was released after this many milliseconds.
    Released { duration_ms: u64 },
    /// The cursor moved to this offset from where the button was pressed.
    CursorMoved { x: i32, y: i32 },
}

/// What is known of one input device.
#[derive(Debug, Clone)]
pub struct DeviceInfo {
    /// Path of the event device.
    pub path: std::path::PathBuf,
    /// Name of the device as the kernel reports it.
    pub name: String,
    /// Vendor identifier.
    pub vendor_id: u16,
    /// Product identifier.
    pub product_id: u16,
    /// Whether the device is taken for an MX Master 4.
    pub is_mx_master_4: bool,
}

/// What can go wrong on the input event stream.
#[derive(Debug)]
pub enum EvdevError {
    /// No MX Master 4 was found.
    DeviceNotFound,
    /// The operating system denied access to the device.
    PermissionDenied,
    /// An I/O error, as the operating system reported it.
    IoError(std::io::Error),
}

impl EvdevError {
    /// The text of every error whose text does not depend on the operating
    /// system; for an I/O error, the prefix of its text.
    pub open spec fn spec_text(&self) -> Seq<char> {
        match self {
            EvdevError::DeviceNotFound => "MX Master 4 not found"@,
            EvdevError::PermissionDenied => "Permission denied. Ensure udev rules are installed and user is in 'input' group."@,
            EvdevError::IoError(_) => "I/O error: "@,
        }
    }

    /// A human-readable description of the error.
    pub fn to_string(&self) -> (text: String)
        ensures
            !(self is IoError) ==> text@ == self.spec_text(),
            self is IoError ==> self.spec_text().is_prefix_of(text@),
    {
        match self {
            EvdevError::DeviceNotFound => String::from_str("MX Master 4 not found"),
            EvdevError::PermissionDenied => String::from_str(
                "Permission denied. Ensure udev rules are installed and user is in 'input' group.",
            ),
            EvdevError::IoError(e) => {
                let detail: String = e.to_string();
                String::from_str("I/O error: ").concat(detail.as_str())
            },
        }
    }
}

/// Whether a file name is that of an event device: it starts with `event`.
pub open spec fn spec_is_event_node(file_name: Seq<u8>) -> bool {
    spec_starts_with(file_name, seq![0x65u8, 0x76u8, 0x65u8, 0x6Eu8, 0x74u8])
}

/// Whether a file name is that of an event device.
pub fn is_event_node(file_name: &[u8]) -> (event_node: bool)
    ensures
        event_node == spec_is_event_node(file_name@),
{
    let prefix: [u8; 5] = [0x65, 0x76, 0x65, 0x6E, 0x74];
    starts_with(file_name, prefix.as_slice())
}

/// Whether a device has the side buttons that the mouse has and a touchpad
/// with the same identifiers lacks.
pub open spec fn spec_has_gesture_buttons(key_codes: Seq<u16>) -> bool {
    exists|i: int| 0 <= i < key_codes.len() && is_side_button(#[trigger] key_codes[i])
}

/// Whether a key code is that of a side button.
pub open spec fn is_side_button(code: u16) -> bool {
    code == BTN_SIDE || code == BTN_EXTRA
}

/// Whether a product identifier is one of the MX Master 4.
pub open spec fn spec_is_mx_master_4_product(product_id: u16) -> bool {
    product_id == 0xB034 || product_id == 0xB035 || product_id == 0x4082 || product_id == 0xC548
}

/// Whether a key code is one of the gesture button.
pub open spec fn spec_is_gesture_button(code: u16) -> bool {
    code == 0x116
}

/// Whether a device has the side buttons of the mouse, by the key codes it
/// supports.
pub fn has_gesture_buttons(key_codes: &[u16]) -> (found: bool)
    ensures
        found == spec_has_gesture_buttons(key_codes@),
{
    let mut i: usize = 0;
    while i < key_codes.len()
        invariant
            i <= key_codes.len(),
            forall|j: int| 0 <= j < i ==> !is_side_button(#[trigger] key_codes@[j]),
        decreases key_codes.len() - i,
    {
        if key_codes[i] == BTN_SIDE || key_codes[i] == BTN_EXTRA {
            return true;
        }
        i = i + 1;
    }
    false
}

/// Whether a product identifier is one of the MX Master 4.
pub fn is_mx_master_4_product(product_id: u16) -> (known: bool)
    ensures
        known == spec_is_mx_master_4_product(product_id),
{
    let mut i: usize = 0;
    while i < 4
        invariant
            i <= 4,
            forall|j: int| 0 <= j < i ==> MX_MASTER_4_PRODUCT_IDS@[j] != product_id,
        decreases 4 - i,
    {
        if MX_MASTER_4_PRODUCT_IDS[i] == product_id {
            return true;
        }
        i = i + 1;
    }
    false
}

/// Whether a key code is one of the gesture button.
pub fn is_gesture_button(code: u16) -> (gesture: bool)
    ensures
        gesture == spec_is_gesture_button(code),
{
    GESTURE_BUTTON_CODES[0] == code
}

/// Describes an input device that was opened, given what the device reports
/// of itself. A device of another vendor is of no interest and gives `None`.
/// A device of the vendor is taken for an MX Master 4 where its product
/// identifier is known and it has the side buttons.
pub fn check_device(
    path: std::path::PathBuf,
    name: String,
    vendor_id: u16,
    product_id: u16,
    key_codes: &[u16],
) -> (info: Option<DeviceInfo>)
    ensures
        info is Some <==> vendor_id == LOGITECH_VENDOR_ID,
        info matches Some(d) ==> {
            &&& d.path == path
            &&& d.name == name
            &&& d.vendor_id == vendor_id
            &&& d.product_id == product_id
            &&& d.is_mx_master_4 == (spec_is_mx_master_4_product(product_id)
                && spec_has_gesture_buttons(key_codes@))
        },
{
    if vendor_id != LOGITECH_VENDOR_ID {
        return None;
    }
    let is_mx_master_4 = is_mx_master_4_product(product_id) && has_gesture_buttons(key_codes);
    Some(DeviceInfo { path, name, vendor_id, product_id, is_mx_master_4 })
}

/// Whether a device name is that of the LogiOps virtual input device.
pub fn is_logid_device(name: &str) -> (logid: bool)
    ensures
        logid == (name@ == LOGID_DEVICE_NAME@),
{
    same_text(name, LOGID_DEVICE_NAME)
}

/// What an input event asks the caller to do.
#[derive(Debug, Clone, Copy, PartialEq, Eq, Structural)]
pub enum InputAction {
    /// Nothing.
    Ignore,
    /// The gesture button went down: find the cursor and show the menu.
    ShowMenu,
    /// Pass this event on.
    Emit(GestureEvent),
}

/// Time elapsed from `since` to `now`; zero where the clock went backwards.
pub open spec fn spec_held_ms(now_ms: u64, since_ms: Option<u64>) -> u64 {
    match since_ms {
        Some(since) => if now_ms >= since {
            (now_ms - since) as u64
        } else {
            0
        },
        None => 0,
    }
}

fn held_ms(now_ms: u64, since_ms: Option<u64>) -> (ms: u64)
    ensures
        ms == spec_held_ms(now_ms, since_ms),
{
    match since_ms {
        Some(since) => {
            if now_ms >= since {
                now_ms - since
            } else {
                0
            }
        },
        None => 0,
    }
}

/// The sum of two coordinates, wrapped around at the ends of the range.
pub open spec fn spec_moved(position: i32, delta: i32) -> i32 {
    if position + delta > i32::MAX {
        (position + delta - 0x1_0000_0000) as i32
    } else if position + delta < i32::MIN {
        (position + delta + 0x1_0000_0000) as i32
    } else {
        (position + delta) as i32
    }
}

fn moved(position: i32, delta: i32) -> (sum: i32)
    ensures
        sum == spec_moved(position, delta),
{
    position.wrapping_add(delta)
}

/// What the event handler of the mouse remembers between events.
#[derive(Debug, Clone, Copy, PartialEq, Eq, Structural)]
pub struct EvdevHandler {
    /// Whether a device is connected.
    pub connected: bool,
    /// When the gesture button went down, in milliseconds of a monotonic
    /// clock.
    pub press_time: Option<u64>,
    /// Whether the handler is looking for the device.
    pub polling: bool,
    /// Horizontal offset of the cursor from where the button went down.
    pub cursor_x: i32,
    /// Vertical offset of the cursor from where the button went down.
    pub cursor_y: i32,
    /// Whether the menu is shown: the button is held.
    pub menu_active: bool,
}

impl EvdevHandler {
    /// The handler before any event.
    pub open spec fn spec_new() -> EvdevHandler {
        EvdevHandler {
            connected: false,
            press_time: None,
            polling: false,
            cursor_x: 0,
            cursor_y: 0,
            menu_active: false,
        }
    }

    /// The handler after a change of the gesture button, and what is to be
    /// done. A value of 1 is a press, 0 a release, everything else a repeat
    /// that is ignored.
    pub open spec fn spec_handle_gesture_event(self, value: i32, now_ms: u64) -> (
        EvdevHandler,
        InputAction,
    ) {
        if value == 1 {
            (
                EvdevHandler {
                    press_time: Some(now_ms),
                    menu_active: true,
                    cursor_x: 0,
                    cursor_y: 0,
                    ..self
                },
                InputAction::ShowMenu,
            )
        } else if value == 0 {
            (
                EvdevHandler { press_time: None, menu_active: false, ..self },
                InputAction::Emit(
                    GestureEvent::Released { duration_ms: spec_held_ms(now_ms, self.press_time) },
                ),
            )
        } else {
            (self, InputAction::Ignore)
        }
    }

    /// The handler after a relative movement, and what is to be done. While
    /// the menu is shown a movement on either axis moves the offset and is
    /// passed on; everything else is ignored.
    pub open spec fn spec_handle_motion(self, axis: u16, value: i32) -> (
        EvdevHandler,
        InputAction,
    ) {
        if !self.menu_active {
            (self, InputAction::Ignore)
        } else if axis == REL_X {
            let x = spec_moved(self.cursor_x, value);
            (
                EvdevHandler { cursor_x: x, ..self },
                InputAction::Emit(GestureEvent::CursorMoved { x, y: self.cursor_y }),
            )
        } else if axis == REL_Y {
            let y = spec_moved(self.cursor_y, value);
            (
                EvdevHandler { cursor_y: y, ..self },
                InputAction::Emit(GestureEvent::CursorMoved { x: self.cursor_x, y }),
            )
        } else {
            (self, InputAction::Ignore)
        }
    }

    /// The handler after an input event, and what is to be done: a key event
    /// of the gesture button is a change of the button, a relative event is
    /// a movement, everything else is ignored.
    pub open spec fn spec_handle_event(self, event_type: u16, code: u16, value: i32, now_ms: u64)
        -> (EvdevHandler, InputAction) {
        if event_type == EV_KEY {
            if spec_is_gesture_button(code) {
                self.spec_handle_gesture_event(value, now_ms)
            } else {
                (self, InputAction::Ignore)
            }
        } else if event_type == EV_REL {
            self.spec_handle_motion(code, value)
        } else {
            (self, InputAction::Ignore)
        }
    }

    /// Creates a handler.
    pub fn new() -> (handler: EvdevHandler)
        ensures
            handler == Self::spec_new(),
    {
        EvdevHandler {
            connected: false,
            press_time: None,
            polling: false,
            cursor_x: 0,
            cursor_y: 0,
            menu_active: false,
        }
    }

    /// Takes a change of the gesture button at `now_ms`.
    pub fn handle_gesture_event(&mut self, value: i32, now_ms: u64) -> (action: InputAction)
        ensures
            (*final(self), action) == old(self).spec_handle_gesture_event(value, now_ms),
    {
        if value == 1 {
            self.press_time = Some(now_ms);
            self.menu_active = true;
            self.cursor_x = 0;
            self.cursor_y = 0;
            InputAction::ShowMenu
        } else if value == 0 {
            self.menu_active = false;
            let duration_ms: u64 = held_ms(now_ms, self.press_time);
            self.press_time = None;
            InputAction::Emit(GestureEvent::Released { duration_ms })
        } else {
            InputAction::Ignore
        }
    }

    /// Takes a relative movement.
    pub fn handle_motion(&mut self, axis: u16, value: i32) -> (action: InputAction)
        ensures
            (*final(self), action) == old(self).spec_handle_motion(axis, value),
    {
        if !self.menu_active {
            InputAction::Ignore
        } else if axis == REL_X {
            self.cursor_x = moved(self.cursor_x, value);
            InputAction::Emit(GestureEvent::CursorMoved { x: self.cursor_x, y: self.cursor_y })
        } else if axis == REL_Y {
            self.cursor_y = moved(self.cursor_y, value);
            InputAction::Emit(GestureEvent::CursorMoved { x: self.cursor_x, y: self.cursor_y })
        } else {
            InputAction::Ignore
        }
    }

    /// Takes one input event of the mouse at `now_ms`.
    pub fn handle_event(&mut self, event_type: u16, code: u16, value: i32, now_ms: u64) -> (action:
        InputAction)
        ensures
            (*final(self), action) == old(self).spec_handle_event(event_type, code, value, now_ms),
    {
        if event_type == EV_KEY {
            if is_gesture_button(code) {
                self.handle_gesture_event(value, now_ms)
            } else {
                InputAction::Ignore
            }
        } else if event_type == EV_REL {
            self.handle_motion(code, value)
        } else {
            InputAction::Ignore
        }
    }

    /// Whether the cursor is to be queried for a press. On Hyprland it always
    /// is; elsewhere the compositor reports the cursor by itself once its
    /// script ran, and the cursor is queried only where the script failed.
    pub fn cursor_query_needed(on_hyprland: bool, script_ran: bool) -> (needed: bool)
        ensures
            needed == (on_hyprland || !script_ran),
    {
        on_hyprland || !script_ran
    }

    /// Notes that the search for the device begins. The answer is whether
    /// there is anything to search for: a connected handler does not search.
    pub fn begin_poll(&mut self) -> (search: bool)
        ensures
            search == !old(self).connected,
            *final(self) == (EvdevHandler { polling: !old(self).connected, ..*old(self) }),
    {
        if self.connected {
            self.polling = false;
            return false;
        }
        self.polling = true;
        true
    }

    /// Notes that the search for the device is over.
    pub fn end_poll(&mut self)
        ensures
            *final(self) == (EvdevHandler { polling: false, ..*old(self) }),
    {
        self.polling = false;
    }

    /// Notes that a device was connected or lost.
    pub fn set_connected(&mut self, connected: bool)
        ensures
            *final(self) == (EvdevHandler { connected, ..*old(self) }),
    {
        self.connected = connected;
    }

    /// Whether a device is connected.
    pub fn is_connected(&self) -> (connected: bool)
        ensures
            connected == self.connected,
    {
        self.connected
    }

    /// Whether the handler is looking for the device.
    pub fn is_polling(&self) -> (polling: bool)
        ensures
            polling == self.polling,
    {
        self.polling
    }
}

/// What the event handler of the LogiOps virtual device remembers.
#[derive(Debug, Clone, Copy, PartialEq, Eq, Structural)]
pub struct LogidHandler {
    /// When the gesture key went down, in milliseconds of a monotonic clock.
    pub press_time: Option<u64>,
}

impl LogidHandler {
    /// The handler after a key event, and what is to be done. Only the
    /// gesture key counts: a value of 1 is a press, 0 a release, everything
    /// else a repeat that is ignored.
    pub open spec fn spec_handle_key(self, code: u16, value: i32, now_ms: u64) -> (
        LogidHandler,
        InputAction,
    ) {
        if code != LOGID_GESTURE_KEY {
            (self, InputAction::Ignore)
        } else if value == 1 {
            (LogidHandler { press_time: Some(now_ms) }, InputAction::ShowMenu)
        } else if value == 0 {
            (
                LogidHandler { press_time: None },
                InputAction::Emit(
                    GestureEvent::Released { duration_ms: spec_held_ms(now_ms, self.press_time) },
                ),
            )
        } else {
            (self, InputAction::Ignore)
        }
    }

    /// Creates a handler.
    pub fn new() -> (handler: LogidHandler)
        ensures
            handler.press_time is None,
    {
        LogidHandler { press_time: None }
    }

    /// Takes the press of the gesture key at `now_ms`.
    pub fn handle_press(&mut self, now_ms: u64) -> (action: InputAction)
        ensures
            (*final(self), action) == old(self).spec_handle_key(LOGID_GESTURE_KEY, 1, now_ms),
    {
        self.press_time = Some(now_ms);
        InputAction::ShowMenu
    }

    /// Takes the release of the gesture key at `now_ms`.
    pub fn handle_release(&mut self, now_ms: u64) -> (action: InputAction)
        ensures
            (*final(self), action) == old(self).spec_handle_key(LOGID_GESTURE_KEY, 0, now_ms),
    {
        let duration_ms: u64 = held_ms(now_ms, self.press_time);
        self.press_time = None;
        InputAction::Emit(GestureEvent::Released { duration_ms })
    }

    /// Takes one key event of the virtual device at `now_ms`.
    pub fn handle_key(&mut self, code: u16, value: i32, now_ms: u64) -> (action: InputAction)
        ensures
            (*final(self), action) == old(self).spec_handle_key(code, value, now_ms),
    {
        if code != LOGID_GESTURE_KEY {
            InputAction::Ignore
        } else if value == 1 {
            self.handle_press(now_ms)
        } else if value == 0 {
            self.handle_release(now_ms)
        } else {
            InputAction::Ignore
        }
    }
}

} // verus!
