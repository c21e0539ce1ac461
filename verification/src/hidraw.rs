//! Diverted button events, read as HID++ notifications from the raw HID
//! device.
//!
//! A button that was diverted no longer shows up on the input event stream;
//! the device reports it in a notification instead. The caller reads the
//! reports; what a report means is decided here.

use vstd::prelude::*;
use vstd::string::StringExecFns;
use crate::evdev::{spec_held_ms, GestureEvent, InputAction};
use crate::hidpp::device::{be16, spec_be16};
use crate::hidpp::message::unpack_function;
use crate::text::{contains, spec_contains};

pub mod button_cid;

verus! {

/// Logitech vendor identifier.
pub const LOGITECH_VENDOR_ID: u16 = 0x046D;

/// Product identifier of the Bolt receiver.
pub const BOLT_RECEIVER_PID: u16 = 0xC548;

/// Leading byte of a short HID++ report.
pub const HIDPP_SHORT: u8 = 0x10;

/// Leading byte of a long HID++ report.
pub const HIDPP_LONG: u8 = 0x11;

/// Identifier of the feature that reports diverted buttons. The feature is
/// only listened to here; it is never addressed.
pub const FEATURE_REPROG_CONTROLS_V4: u16 = 0x1B04;

/// Function identifier of the notification for diverted buttons.
pub const DIVERTED_BUTTONS_EVENT: u8 = 0x00;

/// What can go wrong on the raw HID device.
#[derive(Debug)]
pub enum HidrawError {
    /// No device of the vendor was found.
    DeviceNotFound,
    /// The operating system denied access to the device.
    PermissionDenied,
    /// An I/O error, as the operating system reported it.
    IoError(std::io::Error),
}

impl HidrawError {
    /// The text of every error whose text does not depend on the operating
    /// system; for an I/O error, the prefix of its text.
    pub open spec fn spec_text(&self) -> Seq<char> {
        match self {
            HidrawError::DeviceNotFound => "Logitech hidraw device not found"@,
            HidrawError::PermissionDenied => "Permission denied. Ensure udev rules are installed."@,
            HidrawError::IoError(_) => "I/O error: "@,
        }
    }

    /// A human-readable description of the error.
    pub fn to_string(&self) -> (text: String)
        ensures
            !(self is IoError) ==> text@ == self.spec_text(),
            self is IoError ==> self.spec_text().is_prefix_of(text@),
    {
        match self {
            HidrawError::DeviceNotFound => String::from_str("Logitech hidraw device not found"),
            HidrawError::PermissionDenied => String::from_str(
                "Permission denied. Ensure udev rules are installed.",
            ),
            HidrawError::IoError(e) => {
                let detail: String = e.to_string();
                String::from_str("I/O error: ").concat(detail.as_str())
            },
        }
    }
}

/// Whether a node's metadata holds one of two spellings of an identifier.
pub open spec fn spec_names(uevent: Seq<u8>, upper: Seq<u8>, lower: Seq<u8>) -> bool {
    spec_contains(uevent, upper) || spec_contains(uevent, lower)
}

/// The mark of control interface 2: `input2`.
pub open spec fn interface_two_mark() -> Seq<u8> {
    seq![0x69u8, 0x6Eu8, 0x70u8, 0x75u8, 0x74u8, 0x32u8]
}

/// How well a node suits the reading of button events, by its metadata: 0
/// for a node of another vendor, 3 for a Bolt receiver, 2 for a Unifying
/// receiver or the mouse itself on USB, 1 for any other node of the vendor.
/// The identifiers are looked for in upper and in lower case.
pub open spec fn spec_priority(uevent: Seq<u8>) -> u8 {
    if !spec_names(
        uevent,
        seq![0x30u8, 0x34u8, 0x36u8, 0x44u8],
        seq![0x30u8, 0x34u8, 0x36u8, 0x64u8],
    ) {
        0
    } else if spec_names(
        uevent,
        seq![0x43u8, 0x35u8, 0x34u8, 0x38u8],
        seq![0x63u8, 0x35u8, 0x34u8, 0x38u8],
    ) {
        3
    } else if spec_names(
        uevent,
        seq![0x43u8, 0x35u8, 0x32u8, 0x42u8],
        seq![0x63u8, 0x35u8, 0x32u8, 0x62u8],
    ) {
        2
    } else if spec_names(
        uevent,
        seq![0x42u8, 0x30u8, 0x33u8, 0x34u8],
        seq![0x62u8, 0x30u8, 0x33u8, 0x34u8],
    ) {
        2
    } else {
        1
    }
}

/// Whether a node shows control interface 2.
pub open spec fn spec_on_interface_two(uevent: Seq<u8>) -> bool {
    spec_contains(uevent, interface_two_mark())
}

fn names(uevent: &[u8], upper: [u8; 4], lower: [u8; 4]) -> (named: bool)
    ensures
        named == spec_names(uevent@, upper@, lower@),
{
    contains(uevent, upper.as_slice()) || contains(uevent, lower.as_slice())
}

/// How well a node suits the reading of button events.
pub fn priority(uevent: &[u8]) -> (rank: u8)
    ensures
        rank == spec_priority(uevent@),
        rank <= 3,
{
    let vendor_up: [u8; 4] = [0x30, 0x34, 0x36, 0x44];
    let vendor_low: [u8; 4] = [0x30, 0x34, 0x36, 0x64];
    let bolt_up: [u8; 4] = [0x43, 0x35, 0x34, 0x38];
    let bolt_low: [u8; 4] = [0x63, 0x35, 0x34, 0x38];
    let unifying_up: [u8; 4] = [0x43, 0x35, 0x32, 0x42];
    let unifying_low: [u8; 4] = [0x63, 0x35, 0x32, 0x62];
    let usb_up: [u8; 4] = [0x42, 0x30, 0x33, 0x34];
    let usb_low: [u8; 4] = [0x62, 0x30, 0x33, 0x34];
    if !names(uevent, vendor_up, vendor_low) {
        0
    } else if names(uevent, bolt_up, bolt_low) {
        3
    } else if names(uevent, unifying_up, unifying_low) {
        2
    } else if names(uevent, usb_up, usb_low) {
        2
    } else {
        1
    }
}

fn on_interface_two(uevent: &[u8]) -> (shown: bool)
    ensures
        shown == spec_on_interface_two(uevent@),
{
    let mark: [u8; 6] = [0x69, 0x6E, 0x70, 0x75, 0x74, 0x32];
    contains(uevent, mark.as_slice())
}

/// Whether a node has the given priority and shows control interface 2.
pub open spec fn spec_preferred_at(uevent: Seq<u8>, rank: u8) -> bool {
    spec_priority(uevent) == rank && spec_on_interface_two(uevent)
}

/// What the choice of a node owes. The chosen node is a node of the vendor
/// of the highest priority there is: the first of that priority that shows
/// control interface 2, and where none of that priority shows it, the first
/// of that priority. There is no choice only where no node is of the vendor.
pub open spec fn spec_node_chosen(uevents: Seq<Vec<u8>>, choice: Result<usize, HidrawError>)
    -> bool {
    match choice {
        Ok(index) => {
            let rank = spec_priority(uevents[index as int]@);
            &&& index < uevents.len()
            &&& rank > 0
            &&& forall|j: int|
                0 <= j < uevents.len() ==> spec_priority(#[trigger] uevents[j]@) <= rank
            &&& if spec_on_interface_two(uevents[index as int]@) {
                forall|j: int| 0 <= j < index ==> !spec_preferred_at(#[trigger] uevents[j]@, rank)
            } else {
                &&& forall|j: int|
                    0 <= j < uevents.len() ==> !spec_preferred_at(#[trigger] uevents[j]@, rank)
                &&& forall|j: int|
                    0 <= j < index ==> spec_priority(#[trigger] uevents[j]@) != rank
            }
        },
        Err(e) => {
            &&& e is DeviceNotFound
            &&& forall|j: int|
                0 <= j < uevents.len() ==> spec_priority(#[trigger] uevents[j]@) == 0
        },
    }
}

/// Chooses the node to read button events from, given the metadata text of
/// each raw HID node in the order in which the nodes were listed.
pub fn find_device(uevents: &Vec<Vec<u8>>) -> (choice: Result<usize, HidrawError>)
    ensures
        spec_node_chosen(uevents@, choice),
{
    let mut best: u8 = 0;
    let mut i: usize = 0;
    while i < uevents.len()
        invariant
            i <= uevents.len(),
            forall|j: int| 0 <= j < i ==> spec_priority(#[trigger] uevents@[j]@) <= best,
            best == 0 || exists|j: int| 0 <= j < i && spec_priority(#[trigger] uevents@[j]@) == best,
        decreases uevents.len() - i,
    {
        let rank: u8 = priority(uevents[i].as_slice());
        if rank > best {
            best = rank;
        }
        i = i + 1;
    }
    if best == 0 {
        return Err(HidrawError::DeviceNotFound);
    }
    let mut first: Option<usize> = None;
    let mut k: usize = 0;
    while k < uevents.len()
        invariant
            k <= uevents.len(),
            best > 0,
            forall|j: int|
                0 <= j < uevents.len() ==> spec_priority(#[trigger] uevents@[j]@) <= best,
            forall|j: int| 0 <= j < k ==> !spec_preferred_at(#[trigger] uevents@[j]@, best),
            match first {
                Some(index) => {
                    &&& index < k
                    &&& spec_priority(uevents@[index as int]@) == best
                    &&& forall|j: int|
                        0 <= j < index ==> spec_priority(#[trigger] uevents@[j]@) != best
                },
                None => forall|j: int|
                    0 <= j < k ==> spec_priority(#[trigger] uevents@[j]@) != best,
            },
        decreases uevents.len() - k,
    {
        let uevent: &[u8] = uevents[k].as_slice();
        if priority(uevent) == best {
            if on_interface_two(uevent) {
                return Ok(k);
            }
            if first.is_none() {
                first = Some(k);
            }
        }
        k = k + 1;
    }
    match first {
        Some(index) => Ok(index),
        None => Err(HidrawError::DeviceNotFound),
    }
}

/// What the handler of diverted button events remembers between reports.
#[derive(Debug, Clone, Copy, PartialEq, Eq, Structural)]
pub struct HidrawHandler {
    /// Whether the device is open.
    pub connected: bool,
    /// When the gesture button went down, in milliseconds of a monotonic
    /// clock.
    pub press_time: Option<u64>,
    /// Device index behind the receiver.
    pub device_index: u8,
    /// Table index of the feature that reports diverted buttons, once known.
    pub reprog_feature_index: Option<u8>,
}

/// Whether a report is a notification of diverted buttons: a HID++ report of
/// at least seven bytes whose function identifier is that of the
/// notification.
pub open spec fn spec_is_button_report(data: Seq<u8>) -> bool {
    &&& data.len() >= 7
    &&& (data[0] == HIDPP_SHORT || data[0] == HIDPP_LONG)
    &&& unpack_function(data[3]) == DIVERTED_BUTTONS_EVENT
}

/// The control identifier that a notification of diverted buttons reports:
/// the first pressed button, or zero where all buttons are up.
pub open spec fn spec_reported_cid(data: Seq<u8>) -> u16 {
    spec_be16(data[4], data[5])
}

/// Whether a control identifier is one of a button that opens the menu.
pub open spec fn spec_opens_menu(cid: u16) -> bool {
    cid == button_cid::GESTURE_BUTTON || cid == button_cid::HAPTIC
}

impl HidrawHandler {
    /// The handler before any report.
    pub open spec fn spec_new() -> HidrawHandler {
        HidrawHandler {
            connected: false,
            press_time: None,
            device_index: 0x02,
            reprog_feature_index: None,
        }
    }

    /// The handler after the gesture button went down or up at `now_ms`, and
    /// what is to be done.
    pub open spec fn spec_handle_gesture_button(self, pressed: bool, now_ms: u64) -> (
        HidrawHandler,
        InputAction,
    ) {
        if pressed {
            (HidrawHandler { press_time: Some(now_ms), ..self }, InputAction::ShowMenu)
        } else {
            (
                HidrawHandler { press_time: None, ..self },
                InputAction::Emit(
                    GestureEvent::Released { duration_ms: spec_held_ms(now_ms, self.press_time) },
                ),
            )
        }
    }

    /// The handler after a report that was read at `now_ms`, and what is to
    /// be done. A notification that reports a button that opens the menu is
    /// a press. A notification that reports all buttons up is a release
    /// where a press went before. Every other report is ignored.
    pub open spec fn spec_process_hidpp_report(self, data: Seq<u8>, now_ms: u64) -> (
        HidrawHandler,
        InputAction,
    ) {
        if !spec_is_button_report(data) {
            (self, InputAction::Ignore)
        } else if spec_opens_menu(spec_reported_cid(data)) {
            self.spec_handle_gesture_button(true, now_ms)
        } else if spec_reported_cid(data) == 0 && self.press_time is Some {
            self.spec_handle_gesture_button(false, now_ms)
        } else {
            (self, InputAction::Ignore)
        }
    }

    /// Creates a handler for a device behind a Bolt receiver.
    pub fn new() -> (handler: HidrawHandler)
        ensures
            handler == Self::spec_new(),
    {
        HidrawHandler {
            connected: false,
            press_time: None,
            device_index: 0x02,
            reprog_feature_index: None,
        }
    }

    /// Takes a press or a release of the gesture button at `now_ms`.
    pub fn handle_gesture_button(&mut self, pressed: bool, now_ms: u64) -> (action: InputAction)
        ensures
            (*final(self), action) == old(self).spec_handle_gesture_button(pressed, now_ms),
    {
        if pressed {
            self.press_time = Some(now_ms);
            InputAction::ShowMenu
        } else {
            let duration_ms: u64 = match self.press_time {
                Some(since) => {
                    if now_ms >= since {
                        now_ms - since
                    } else {
                        0
                    }
                },
                None => 0,
            };
            self.press_time = None;
            InputAction::Emit(GestureEvent::Released { duration_ms })
        }
    }

    /// Takes one report that was read from the device at `now_ms`.
    pub fn process_hidpp_report(&mut self, data: &[u8], now_ms: u64) -> (action: InputAction)
        ensures
            (*final(self), action) == old(self).spec_process_hidpp_report(data@, now_ms),
    {
        if data.len() < 7 {
            return InputAction::Ignore;
        }
        if data[0] != HIDPP_SHORT && data[0] != HIDPP_LONG {
            return InputAction::Ignore;
        }
        let function_id: u8 = data[3] >> 4;
        if function_id != DIVERTED_BUTTONS_EVENT {
            return InputAction::Ignore;
        }
        let cid: u16 = be16(data[4], data[5]);
        if cid == button_cid::GESTURE_BUTTON || cid == button_cid::HAPTIC {
            self.handle_gesture_button(true, now_ms)
        } else if cid == 0 && self.press_time.is_some() {
            self.handle_gesture_button(false, now_ms)
        } else {
            InputAction::Ignore
        }
    }

    /// Notes that the device was opened or lost.
    pub fn set_connected(&mut self, connected: bool)
        ensures
            *final(self) == (HidrawHandler { connected, ..*old(self) }),
    {
        self.connected = connected;
    }

    /// Whether the device is open.
    pub fn is_connected(&self) -> (connected: bool)
        ensures
            connected == self.connected,
    {
        self.connected
    }
}

} // verus!
