//! Discovery: which of the raw HID device nodes is the one to talk to.
//!
//! The caller lists the nodes that the operating system exposes and reads
//! each node's metadata text; the choice among them is made here.

use vstd::prelude::*;
use vstd::string::StringExecFns;
use crate::hidpp::error::HapticError;
use crate::text::{contains, spec_contains};

verus! {

/// How the device is connected to the host.
#[derive(Debug, Clone, Copy, PartialEq, Eq, Structural)]
pub enum ConnectionType {
    /// Direct USB connection.
    Usb,
    /// Through a Bolt receiver.
    Bolt,
    /// Direct Bluetooth connection.
    Bluetooth,
    /// Through a Unifying receiver.
    Unifying,
}

impl ConnectionType {
    /// The connection type's display name.
    pub open spec fn spec_name(&self) -> &'static str {
        match self {
            ConnectionType::Usb => "USB",
            ConnectionType::Bolt => "Bolt",
            ConnectionType::Bluetooth => "Bluetooth",
            ConnectionType::Unifying => "Unifying",
        }
    }

    /// The device index under which the device answers on this kind of
    /// connection: `0xFF` where it is connected directly, a fixed slot behind
    /// a receiver.
    pub open spec fn spec_device_index(&self) -> u8 {
        match self {
            ConnectionType::Usb => 0xFF,
            ConnectionType::Bolt => 0x02,
            ConnectionType::Unifying => 0x01,
            ConnectionType::Bluetooth => 0xFF,
        }
    }

    /// The connection type's display name.
    pub fn to_string(&self) -> (text: String)
        ensures
            text@ == self.spec_name()@,
    {
        match self {
            ConnectionType::Usb => String::from_str("USB"),
            ConnectionType::Bolt => String::from_str("Bolt"),
            ConnectionType::Bluetooth => String::from_str("Bluetooth"),
            ConnectionType::Unifying => String::from_str("Unifying"),
        }
    }

    /// The device index under which the device answers on this kind of
    /// connection.
    #[verifier::when_used_as_spec(spec_device_index)]
    pub fn device_index(&self) -> (index: u8)
        ensures
            index == self.spec_device_index(),
    {
        match self {
            ConnectionType::Usb => 0xFF,
            ConnectionType::Bolt => 0x02,
            ConnectionType::Unifying => 0x01,
            ConnectionType::Bluetooth => 0xFF,
        }
    }
}

/// The vendor identifier in upper case: `046D`.
pub open spec fn vendor_upper() -> Seq<u8> {
    seq![0x30u8, 0x34u8, 0x36u8, 0x44u8]
}

/// The vendor identifier in lower case: `046d`.
pub open spec fn vendor_lower() -> Seq<u8> {
    seq![0x30u8, 0x34u8, 0x36u8, 0x64u8]
}

/// The Bolt receiver's product identifier in upper case: `C548`.
pub open spec fn bolt_upper() -> Seq<u8> {
    seq![0x43u8, 0x35u8, 0x34u8, 0x38u8]
}

/// The Bolt receiver's product identifier in lower case: `c548`.
pub open spec fn bolt_lower() -> Seq<u8> {
    seq![0x63u8, 0x35u8, 0x34u8, 0x38u8]
}

/// The Unifying receiver's product identifier in upper case: `C52B`.
pub open spec fn unifying_upper() -> Seq<u8> {
    seq![0x43u8, 0x35u8, 0x32u8, 0x42u8]
}

/// The Unifying receiver's product identifier in lower case: `c52b`.
pub open spec fn unifying_lower() -> Seq<u8> {
    seq![0x63u8, 0x35u8, 0x32u8, 0x62u8]
}

/// The mouse's own product identifier in upper case: `B034`.
pub open spec fn usb_upper() -> Seq<u8> {
    seq![0x42u8, 0x30u8, 0x33u8, 0x34u8]
}

/// The mouse's own product identifier in lower case: `b034`.
pub open spec fn usb_lower() -> Seq<u8> {
    seq![0x62u8, 0x30u8, 0x33u8, 0x34u8]
}

/// The mark of control interface 2: `input2`.
pub open spec fn interface_two() -> Seq<u8> {
    seq![0x69u8, 0x6Eu8, 0x70u8, 0x75u8, 0x74u8, 0x32u8]
}

/// Whether a node's metadata names the vendor.
pub open spec fn spec_names_vendor(uevent: Seq<u8>) -> bool {
    spec_contains(uevent, vendor_upper()) || spec_contains(uevent, vendor_lower())
}

/// Whether a node's metadata shows control interface 2.
pub open spec fn spec_on_interface_two(uevent: Seq<u8>) -> bool {
    spec_contains(uevent, interface_two())
}

/// The connection type of a node, by its metadata; `None` where the node is
/// no candidate. A node of another vendor is none. A node of the vendor is
/// classified by the product identifier it names: Bolt receiver first,
/// Unifying receiver second, the mouse itself on USB third. A node of the
/// vendor that names none of them is a Bluetooth candidate where it shows
/// control interface 2.
pub open spec fn spec_classify_uevent(uevent: Seq<u8>) -> Option<ConnectionType> {
    if !spec_names_vendor(uevent) {
        None
    } else if spec_contains(uevent, bolt_upper()) || spec_contains(uevent, bolt_lower()) {
        Some(ConnectionType::Bolt)
    } else if spec_contains(uevent, unifying_upper()) || spec_contains(uevent, unifying_lower()) {
        Some(ConnectionType::Unifying)
    } else if spec_contains(uevent, usb_upper()) || spec_contains(uevent, usb_lower()) {
        Some(ConnectionType::Usb)
    } else if spec_on_interface_two(uevent) {
        Some(ConnectionType::Bluetooth)
    } else {
        None
    }
}

/// Whether a node is a candidate that shows control interface 2.
pub open spec fn spec_preferred(uevent: Seq<u8>) -> bool {
    spec_classify_uevent(uevent) is Some && spec_on_interface_two(uevent)
}

/// Whether a node's metadata shows control interface 2.
pub fn on_interface_two(uevent: &[u8]) -> (shown: bool)
    ensures
        shown == spec_on_interface_two(uevent@),
{
    let mark: [u8; 6] = [0x69, 0x6E, 0x70, 0x75, 0x74, 0x32];
    contains(uevent, mark.as_slice())
}

fn names_either(uevent: &[u8], upper: [u8; 4], lower: [u8; 4]) -> (named: bool)
    ensures
        named == (spec_contains(uevent@, upper@) || spec_contains(uevent@, lower@)),
{
    contains(uevent, upper.as_slice()) || contains(uevent, lower.as_slice())
}

/// Classifies one node by its metadata text.
pub fn classify_uevent(uevent: &[u8]) -> (kind: Option<ConnectionType>)
    ensures
        kind == spec_classify_uevent(uevent@),
{
    let vendor_up: [u8; 4] = [0x30, 0x34, 0x36, 0x44];
    let vendor_low: [u8; 4] = [0x30, 0x34, 0x36, 0x64];
    let bolt_up: [u8; 4] = [0x43, 0x35, 0x34, 0x38];
    let bolt_low: [u8; 4] = [0x63, 0x35, 0x34, 0x38];
    let unifying_up: [u8; 4] = [0x43, 0x35, 0x32, 0x42];
    let unifying_low: [u8; 4] = [0x63, 0x35, 0x32, 0x62];
    let usb_up: [u8; 4] = [0x42, 0x30, 0x33, 0x34];
    let usb_low: [u8; 4] = [0x62, 0x30, 0x33, 0x34];
    if !names_either(uevent, vendor_up, vendor_low) {
        None
    } else if names_either(uevent, bolt_up, bolt_low) {
        Some(ConnectionType::Bolt)
    } else if names_either(uevent, unifying_up, unifying_low) {
        Some(ConnectionType::Unifying)
    } else if names_either(uevent, usb_up, usb_low) {
        Some(ConnectionType::Usb)
    } else if on_interface_two(uevent) {
        Some(ConnectionType::Bluetooth)
    } else {
        None
    }
}

/// What discovery owes for the given nodes: the first candidate that shows
/// control interface 2; where no candidate shows it, the first candidate;
/// and the error that no device was found exactly where there is no
/// candidate.
pub open spec fn spec_chosen(
    uevents: Seq<Vec<u8>>,
    choice: Result<(usize, ConnectionType), HapticError>,
) -> bool {
    match choice {
        Ok((index, kind)) => {
            &&& index < uevents.len()
            &&& spec_classify_uevent(uevents[index as int]@) == Some(kind)
            &&& if spec_on_interface_two(uevents[index as int]@) {
                forall|j: int| 0 <= j < index ==> !spec_preferred(#[trigger] uevents[j]@)
            } else {
                &&& forall|j: int|
                    0 <= j < uevents.len() ==> !spec_preferred(#[trigger] uevents[j]@)
                &&& forall|j: int|
                    0 <= j < index ==> spec_classify_uevent(#[trigger] uevents[j]@) is None
            }
        },
        Err(e) => {
            &&& e is DeviceNotFound
            &&& forall|j: int|
                0 <= j < uevents.len() ==> spec_classify_uevent(#[trigger] uevents[j]@) is None
        },
    }
}

/// Chooses the node to open among the nodes found, given each node's metadata
/// text in the order in which the nodes were listed. The answer is the
/// position of the chosen node and its connection type, or the error that no
/// device was found.
pub fn find_device(uevents: &Vec<Vec<u8>>) -> (choice: Result<(usize, ConnectionType), HapticError>)
    ensures
        spec_chosen(uevents@, choice),
{
    let mut first: Option<(usize, ConnectionType)> = None;
    let mut i: usize = 0;
    while i < uevents.len()
        invariant
            i <= uevents.len(),
            forall|j: int| 0 <= j < i ==> !spec_preferred(#[trigger] uevents@[j]@),
            match first {
                Some((index, kind)) => {
                    &&& index < i
                    &&& spec_classify_uevent(uevents@[index as int]@) == Some(kind)
                    &&& forall|j: int|
                        0 <= j < index ==> spec_classify_uevent(#[trigger] uevents@[j]@) is None
                },
                None => forall|j: int|
                    0 <= j < i ==> spec_classify_uevent(#[trigger] uevents@[j]@) is None,
            },
        decreases uevents.len() - i,
    {
        let uevent: &[u8] = uevents[i].as_slice();
        match classify_uevent(uevent) {
            Some(kind) => {
                if on_interface_two(uevent) {
                    return Ok((i, kind));
                }
                if first.is_none() {
                    first = Some((i, kind));
                }
            },
            None => {},
        }
        i = i + 1;
    }
    match first {
        Some(choice) => Ok(choice),
        None => Err(HapticError::DeviceNotFound),
    }
}

/// Discovery gives one answer only: two choices that both meet its contract
/// are the same.
pub proof fn lemma_choice_unique(
    uevents: Seq<Vec<u8>>,
    a: Result<(usize, ConnectionType), HapticError>,
    b: Result<(usize, ConnectionType), HapticError>,
)
    requires
        spec_chosen(uevents, a),
        spec_chosen(uevents, b),
    ensures
        a == b,
{
}

} // verus!
