//! Battery status of the device, queried over HID++.
//!
//! The query is a short dialogue: the battery feature is resolved, under the
//! unified identifier first and under the older one second, and its status
//! is read. The dialogue is laid down here; the caller runs the exchanges.

use vstd::prelude::*;
use vstd::string::StringExecFns;
use crate::hidpp::device::{
    feature_index_request,
    spec_feature_index_request,
};
use crate::hidpp::exchange::{ExchangeOutcome, HidppRequest};
use crate::text::{contains, spec_contains};

verus! {

/// Identifier of the older battery-status feature.
pub const FEATURE_BATTERY_STATUS: u16 = 0x1000;

/// Identifier of the unified battery feature of newer devices.
pub const FEATURE_UNIFIED_BATTERY: u16 = 0x1004;

/// Device index of the slot behind a Bolt receiver.
pub const BOLT_DEVICE_INDEX: u8 = 0x02;

/// What is known of the battery.
#[derive(Debug, Clone)]
pub struct BatteryState {
    /// Battery charge in percent.
    pub percentage: u8,
    /// Whether the device is charging.
    pub charging: bool,
    /// Whether the battery could be queried.
    pub available: bool,
    /// Text of the last error, if the last query failed.
    pub error: Option<String>,
}

impl Default for BatteryState {
    fn default() -> (state: Self)
        ensures
            state.percentage == 0,
            !state.charging,
            !state.available,
            state.error is None,
    {
        Self { percentage: 0, charging: false, available: false, error: None }
    }
}

/// What can go wrong while querying the battery.
#[derive(Debug)]
pub enum BatteryError {
    /// No receiver was found.
    DeviceNotFound,
    /// The operating system denied access to the device.
    PermissionDenied,
    /// An I/O error, as the operating system reported it.
    IoError(std::io::Error),
    /// A reply had an unexpected shape, or was an error frame.
    ProtocolError(String),
    /// The device has no battery feature.
    FeatureNotSupported,
    /// No matching reply arrived within the attempt budget.
    Timeout,
}

impl BatteryError {
    /// Whether the error is a protocol error with the given text.
    pub open spec fn spec_is_protocol_error(&self, text: Seq<char>) -> bool {
        self matches BatteryError::ProtocolError(msg) && msg@ == text
    }

    /// The text of every error whose text does not depend on the operating
    /// system; for an I/O error, the prefix of its text.
    pub open spec fn spec_text(&self) -> Seq<char> {
        match self {
            BatteryError::DeviceNotFound => "Device not found"@,
            BatteryError::PermissionDenied => "Permission denied"@,
            BatteryError::IoError(_) => "I/O error: "@,
            BatteryError::ProtocolError(msg) => "Protocol error: "@ + msg@,
            BatteryError::FeatureNotSupported => "Battery feature not supported"@,
            BatteryError::Timeout => "Request timeout"@,
        }
    }

    /// A human-readable description of the error. For an I/O error the
    /// operating system's own description follows the prefix.
    pub fn to_string(&self) -> (text: String)
        ensures
            !(self is IoError) ==> text@ == self.spec_text(),
            self is IoError ==> self.spec_text().is_prefix_of(text@),
    {
        match self {
            BatteryError::DeviceNotFound => String::from_str("Device not found"),
            BatteryError::PermissionDenied => String::from_str("Permission denied"),
            BatteryError::IoError(e) => {
                let detail: String = e.to_string();
                String::from_str("I/O error: ").concat(detail.as_str())
            },
            BatteryError::ProtocolError(msg) => String::from_str("Protocol error: ").concat(
                msg.as_str(),
            ),
            BatteryError::FeatureNotSupported => String::from_str("Battery feature not supported"),
            BatteryError::Timeout => String::from_str("Request timeout"),
        }
    }
}

impl BatteryState {
    /// Takes over the outcome of a query. A reading makes the battery
    /// available and clears the error; a failure makes it unavailable, keeps
    /// the last reading and holds the error's text.
    pub fn apply(&mut self, outcome: &Result<(u8, bool), BatteryError>)
        ensures
            outcome matches Ok(reading) ==> {
                &&& final(self).percentage == reading.0
                &&& final(self).charging == reading.1
                &&& final(self).available
                &&& final(self).error is None
            },
            outcome matches Err(e) ==> {
                &&& final(self).percentage == old(self).percentage
                &&& final(self).charging == old(self).charging
                &&& !final(self).available
                &&& final(self).error matches Some(text) && (if e is IoError {
                    e.spec_text().is_prefix_of(text@)
                } else {
                    text@ == e.spec_text()
                })
            },
    {
        match outcome {
            Ok(reading) => {
                self.percentage = reading.0;
                self.charging = reading.1;
                self.available = true;
                self.error = None;
            },
            Err(e) => {
                self.available = false;
                self.error = Some(e.to_string());
            },
        }
    }

    /// The answer to a status request: the reading, or zero and not charging
    /// while the battery is unavailable.
    pub fn status(&self) -> (reading: (u8, bool))
        ensures
            reading == (if self.available {
                (self.percentage, self.charging)
            } else {
                (0u8, false)
            }),
    {
        if self.available {
            (self.percentage, self.charging)
        } else {
            (0, false)
        }
    }
}

/// The vendor identifier as the receiver's metadata writes it: `046D`.
pub open spec fn vendor_mark() -> Seq<u8> {
    seq![0x30u8, 0x34u8, 0x36u8, 0x44u8]
}

/// The Bolt receiver's product identifier as its metadata writes it: `C548`.
pub open spec fn bolt_mark() -> Seq<u8> {
    seq![0x43u8, 0x35u8, 0x34u8, 0x38u8]
}

/// The mark of control interface 2: `input2`.
pub open spec fn interface_two_mark() -> Seq<u8> {
    seq![0x69u8, 0x6Eu8, 0x70u8, 0x75u8, 0x74u8, 0x32u8]
}

/// Whether a node is a Bolt receiver of the vendor.
pub open spec fn spec_is_receiver(uevent: Seq<u8>) -> bool {
    spec_contains(uevent, vendor_mark()) && spec_contains(uevent, bolt_mark())
}

/// Whether a node is a Bolt receiver that shows control interface 2.
pub open spec fn spec_is_preferred_receiver(uevent: Seq<u8>) -> bool {
    spec_is_receiver(uevent) && spec_contains(uevent, interface_two_mark())
}

/// Whether a node is a Bolt receiver of the vendor.
pub fn is_receiver(uevent: &[u8]) -> (receiver: bool)
    ensures
        receiver == spec_is_receiver(uevent@),
{
    let vendor: [u8; 4] = [0x30, 0x34, 0x36, 0x44];
    let product: [u8; 4] = [0x43, 0x35, 0x34, 0x38];
    contains(uevent, vendor.as_slice()) && contains(uevent, product.as_slice())
}

fn shows_interface_two(uevent: &[u8]) -> (shown: bool)
    ensures
        shown == spec_contains(uevent@, interface_two_mark()),
{
    let mark: [u8; 6] = [0x69, 0x6E, 0x70, 0x75, 0x74, 0x32];
    contains(uevent, mark.as_slice())
}

/// What the choice of a receiver owes: the first receiver that shows control
/// interface 2; where none shows it, the first receiver; an error where
/// there is no receiver.
pub open spec fn spec_receiver_chosen(uevents: Seq<Vec<u8>>, choice: Result<usize, BatteryError>)
    -> bool {
    match choice {
        Ok(index) => {
            &&& index < uevents.len()
            &&& spec_is_receiver(uevents[index as int]@)
            &&& if spec_is_preferred_receiver(uevents[index as int]@) {
                forall|j: int|
                    0 <= j < index ==> !spec_is_preferred_receiver(#[trigger] uevents[j]@)
            } else {
                &&& forall|j: int|
                    0 <= j < uevents.len() ==> !spec_is_preferred_receiver(
                        #[trigger] uevents[j]@,
                    )
                &&& forall|j: int| 0 <= j < index ==> !spec_is_receiver(#[trigger] uevents[j]@)
            }
        },
        Err(e) => {
            &&& e is DeviceNotFound
            &&& forall|j: int| 0 <= j < uevents.len() ==> !spec_is_receiver(#[trigger] uevents[j]@)
        },
    }
}

/// Chooses the receiver to query, given the metadata text of each raw HID
/// node in the order in which the nodes were listed.
pub fn find_device(uevents: &Vec<Vec<u8>>) -> (choice: Result<usize, BatteryError>)
    ensures
        spec_receiver_chosen(uevents@, choice),
{
    let mut first: Option<usize> = None;
    let mut i: usize = 0;
    while i < uevents.len()
        invariant
            i <= uevents.len(),
            forall|j: int| 0 <= j < i ==> !spec_is_preferred_receiver(#[trigger] uevents@[j]@),
            match first {
                Some(index) => {
                    &&& index < i
                    &&& spec_is_receiver(uevents@[index as int]@)
                    &&& forall|j: int|
                        0 <= j < index ==> !spec_is_receiver(#[trigger] uevents@[j]@)
                },
                None => forall|j: int| 0 <= j < i ==> !spec_is_receiver(#[trigger] uevents@[j]@),
            },
        decreases uevents.len() - i,
    {
        let uevent: &[u8] = uevents[i].as_slice();
        if is_receiver(uevent) {
            if shows_interface_two(uevent) {
                return Ok(i);
            }
            if first.is_none() {
                first = Some(i);
            }
        }
        i = i + 1;
    }
    match first {
        Some(index) => Ok(index),
        None => Err(BatteryError::DeviceNotFound),
    }
}

/// Whether `reply` is what the end of an exchange means to the battery
/// query: the reply itself; a timeout; a protocol error for an error frame;
/// and for a failed read or write the I/O error `io_error`, which is the
/// error that the operating system gave for it.
pub open spec fn spec_exchange_answer(
    outcome: ExchangeOutcome,
    io_error: std::io::Error,
    reply: Result<Vec<u8>, BatteryError>,
) -> bool {
    match outcome {
        ExchangeOutcome::Response(bytes) => reply == Ok::<Vec<u8>, BatteryError>(bytes),
        ExchangeOutcome::Timeout => reply == Err::<Vec<u8>, BatteryError>(BatteryError::Timeout),
        ExchangeOutcome::WriteFailed => reply == Err::<Vec<u8>, BatteryError>(
            BatteryError::IoError(io_error),
        ),
        ExchangeOutcome::ReadFailed => reply == Err::<Vec<u8>, BatteryError>(
            BatteryError::IoError(io_error),
        ),
        ExchangeOutcome::DeviceError { .. } => reply is Err
            && reply->Err_0.spec_is_protocol_error("Device returned error"@),
        ExchangeOutcome::LegacyError => reply is Err && reply->Err_0.spec_is_protocol_error(
            "Device returned error"@,
        ),
    }
}

/// Says what the end of an exchange means to the battery query. `io_error`
/// is the operating system's error of the read or write that failed; it is
/// looked at only where the exchange ended on a failed read or write.
pub fn exchange_result(outcome: ExchangeOutcome, io_error: std::io::Error) -> (reply: Result<
    Vec<u8>,
    BatteryError,
>)
    ensures
        spec_exchange_answer(outcome, io_error, reply),
{
    match outcome {
        ExchangeOutcome::Response(bytes) => Ok(bytes),
        ExchangeOutcome::Timeout => Err(BatteryError::Timeout),
        ExchangeOutcome::WriteFailed => Err(BatteryError::IoError(io_error)),
        ExchangeOutcome::ReadFailed => Err(BatteryError::IoError(io_error)),
        ExchangeOutcome::DeviceError { .. } => Err(
            BatteryError::ProtocolError(String::from_str("Device returned error")),
        ),
        ExchangeOutcome::LegacyError => Err(
            BatteryError::ProtocolError(String::from_str("Device returned error")),
        ),
    }
}

/// Whether `index` is what a reply says of a feature's table index: the
/// index in the reply's fifth byte; an index of zero says that the device
/// lacks the feature; a reply of fewer than five bytes is a protocol error;
/// a failed exchange keeps its error.
pub open spec fn spec_index_answer(
    reply: Result<Vec<u8>, BatteryError>,
    index: Result<u8, BatteryError>,
) -> bool {
    match reply {
        Err(e) => index == Err::<u8, BatteryError>(e),
        Ok(bytes) => if bytes@.len() < 5 {
            index is Err && index->Err_0.spec_is_protocol_error("Invalid response"@)
        } else if bytes@[4] == 0 {
            index == Err::<u8, BatteryError>(BatteryError::FeatureNotSupported)
        } else {
            index == Ok::<u8, BatteryError>(bytes@[4])
        },
    }
}

/// Reads the table index of a feature from the outcome of the exchange that
/// asked for it.
pub fn get_feature_index(reply: Result<Vec<u8>, BatteryError>) -> (index: Result<u8, BatteryError>)
    ensures
        spec_index_answer(reply, index),
{
    match reply {
        Err(e) => Err(e),
        Ok(bytes) => {
            if bytes.len() >= 5 {
                let index: u8 = bytes[4];
                if index == 0 {
                    Err(BatteryError::FeatureNotSupported)
                } else {
                    Ok(index)
                }
            } else {
                Err(BatteryError::ProtocolError(String::from_str("Invalid response")))
            }
        },
    }
}

/// Whether `reading` is what a status reply holds under the given kind of
/// feature: the reading, or a protocol error where the reply is too short.
pub open spec fn spec_reading_answer(
    bytes: Seq<u8>,
    unified: bool,
    reading: Result<(u8, bool), BatteryError>,
) -> bool {
    match spec_reading(bytes, unified) {
        Some(r) => reading == Ok::<(u8, bool), BatteryError>(r),
        None => reading is Err && reading->Err_0.spec_is_protocol_error(
            "Invalid battery response"@,
        ),
    }
}

/// The reading that a status reply of the unified battery feature holds: the
/// charge in its fifth byte and the charging status in its eighth, where 1
/// to 3 stand for charging.
pub open spec fn spec_unified_reading(bytes: Seq<u8>) -> (u8, bool) {
    (bytes[4], 1 <= bytes[7] <= 3)
}

/// The reading that a status reply of the older battery feature holds: the
/// charge in its fifth byte and the status in its seventh, where 1 to 4
/// stand for charging.
pub open spec fn spec_status_reading(bytes: Seq<u8>) -> (u8, bool) {
    (bytes[4], 1 <= bytes[6] <= 4)
}

/// The reading that a status reply holds, if it holds one. A reply of the
/// unified feature needs eight bytes; a shorter one of at least seven bytes
/// is read as a reply of the older feature.
pub open spec fn spec_reading(bytes: Seq<u8>, unified: bool) -> Option<(u8, bool)> {
    if bytes.len() >= 8 && unified {
        Some(spec_unified_reading(bytes))
    } else if bytes.len() >= 7 {
        Some(spec_status_reading(bytes))
    } else {
        None
    }
}

/// Reads charge and charging state from a status reply.
pub fn parse_battery_response(bytes: &[u8], unified: bool) -> (reading: Result<
    (u8, bool),
    BatteryError,
>)
    ensures
        spec_reading_answer(bytes@, unified, reading),
{
    if bytes.len() >= 8 && unified {
        let status: u8 = bytes[7];
        Ok((bytes[4], status >= 1 && status <= 3))
    } else if bytes.len() >= 7 {
        let status: u8 = bytes[6];
        Ok((bytes[4], status >= 1 && status <= 4))
    } else {
        Err(BatteryError::ProtocolError(String::from_str("Invalid battery response")))
    }
}

/// Where a battery query stands.
#[derive(Debug, Clone, Copy, PartialEq, Eq, Structural)]
pub enum QueryStage {
    /// The unified battery feature is being resolved.
    ResolvingUnified,
    /// The older battery feature is being resolved.
    ResolvingStatus,
    /// The status is being read.
    Reading,
    /// The query is over.
    Finished,
}

/// What the battery query remembers from one query to the next.
#[derive(Debug, Clone, Copy, PartialEq, Eq, Structural)]
pub struct BatteryHandler {
    /// Device index stamped on the requests.
    pub device_index: u8,
    /// Table index of the battery feature, once resolved.
    pub battery_feature_index: Option<u8>,
    /// Whether the resolved feature is the unified one.
    pub is_unified_battery: bool,
    /// Where the running query stands.
    pub stage: QueryStage,
}

impl BatteryHandler {
    /// The handler before its first query.
    pub open spec fn spec_new() -> BatteryHandler {
        BatteryHandler {
            device_index: BOLT_DEVICE_INDEX,
            battery_feature_index: None,
            is_unified_battery: false,
            stage: QueryStage::Finished,
        }
    }

    /// The handler at the start of a query: with a resolved feature the
    /// status is read at once.
    pub open spec fn spec_begin_query(self) -> BatteryHandler {
        BatteryHandler {
            stage: if self.battery_feature_index is Some {
                QueryStage::Reading
            } else {
                QueryStage::ResolvingUnified
            },
            ..self
        }
    }

    /// The request that is due; `None` where no query is running, or where
    /// the status is to be read of a feature that was never resolved.
    pub open spec fn spec_next_request(self) -> Option<HidppRequest> {
        match self.stage {
            QueryStage::ResolvingUnified => Some(
                spec_feature_index_request(FEATURE_UNIFIED_BATTERY).unwrap(),
            ),
            QueryStage::ResolvingStatus => Some(
                spec_feature_index_request(FEATURE_BATTERY_STATUS).unwrap(),
            ),
            QueryStage::Reading => match self.battery_feature_index {
                Some(index) => Some(
                    HidppRequest {
                        feature_index: index,
                        function: if self.is_unified_battery {
                            0x01u8
                        } else {
                            0x00u8
                        },
                        params: [0u8, 0u8, 0u8],
                    },
                ),
                None => None,
            },
            QueryStage::Finished => None,
        }
    }

    /// The handler after an attempt to resolve the battery feature under one
    /// of its two identifiers. A resolved feature is remembered with its
    /// kind, and its status is read next. After a failure under the unified
    /// identifier the older one is tried; after a failure under the older
    /// one the query is over.
    pub open spec fn spec_resolved(self, index: Result<u8, BatteryError>, unified: bool)
        -> BatteryHandler {
        match index {
            Ok(i) => BatteryHandler {
                battery_feature_index: Some(i),
                is_unified_battery: unified,
                stage: QueryStage::Reading,
                ..self
            },
            Err(_) => BatteryHandler {
                stage: if unified {
                    QueryStage::ResolvingStatus
                } else {
                    QueryStage::Finished
                },
                ..self
            },
        }
    }

    /// Creates a handler for a device behind a Bolt receiver.
    pub fn new() -> (handler: BatteryHandler)
        ensures
            handler == Self::spec_new(),
    {
        BatteryHandler {
            device_index: BOLT_DEVICE_INDEX,
            battery_feature_index: None,
            is_unified_battery: false,
            stage: QueryStage::Finished,
        }
    }

    /// Starts a query.
    pub fn begin_query(&mut self)
        ensures
            *final(self) == old(self).spec_begin_query(),
    {
        if self.battery_feature_index.is_some() {
            self.stage = QueryStage::Reading;
        } else {
            self.stage = QueryStage::ResolvingUnified;
        }
    }

    /// The request to exchange next; `None` where none is due.
    pub fn next_request(&self) -> (request: Option<HidppRequest>)
        ensures
            request == self.spec_next_request(),
    {
        match self.stage {
            QueryStage::ResolvingUnified => match feature_index_request(FEATURE_UNIFIED_BATTERY) {
                Ok(request) => Some(request),
                Err(_) => None,
            },
            QueryStage::ResolvingStatus => match feature_index_request(FEATURE_BATTERY_STATUS) {
                Ok(request) => Some(request),
                Err(_) => None,
            },
            QueryStage::Reading => match self.battery_feature_index {
                Some(index) => {
                    let function: u8 = if self.is_unified_battery {
                        0x01
                    } else {
                        0x00
                    };
                    Some(HidppRequest { feature_index: index, function, params: [0u8, 0u8, 0u8] })
                },
                None => None,
            },
            QueryStage::Finished => None,
        }
    }

    /// Takes the outcome of the exchange that was due. The answer is the
    /// outcome of the query once the query is over, and `None` while another
    /// request is due.
    ///
    /// A device without the unified feature is asked for the older one; a
    /// device with neither ends the query with the second error. A resolved
    /// feature is remembered, and its status is read next.
    pub fn query_battery(&mut self, reply: Result<Vec<u8>, BatteryError>) -> (outcome: Option<
        Result<(u8, bool), BatteryError>,
    >)
        ensures
            final(self).device_index == old(self).device_index,
            old(self).stage == QueryStage::ResolvingUnified ==> {
                &&& outcome is None
                &&& exists|index: Result<u8, BatteryError>| #[trigger]
                    spec_index_answer(reply, index) && *final(self) == old(self).spec_resolved(
                        index,
                        true,
                    )
            },
            old(self).stage == QueryStage::ResolvingStatus ==> {
                &&& exists|index: Result<u8, BatteryError>| #[trigger]
                    spec_index_answer(reply, index) && *final(self) == old(self).spec_resolved(
                        index,
                        false,
                    ) && outcome == (match index {
                        Ok(_) => None,
                        Err(e) => Some(Err::<(u8, bool), BatteryError>(e)),
                    })
            },
            old(self).stage == QueryStage::Reading ==> {
                &&& *final(self) == (BatteryHandler { stage: QueryStage::Finished, ..*old(self) })
                &&& match reply {
                    Ok(bytes) => outcome is Some && spec_reading_answer(
                        bytes@,
                        old(self).is_unified_battery,
                        outcome->Some_0,
                    ),
                    Err(e) => outcome == Some(Err::<(u8, bool), BatteryError>(e)),
                }
            },
            old(self).stage == QueryStage::Finished ==> {
                &&& *final(self) == *old(self)
                &&& outcome is None
            },
    {
        match self.stage {
            QueryStage::ResolvingUnified => {
                match get_feature_index(reply) {
                    Ok(index) => {
                        self.battery_feature_index = Some(index);
                        self.is_unified_battery = true;
                        self.stage = QueryStage::Reading;
                    },
                    Err(_) => {
                        self.stage = QueryStage::ResolvingStatus;
                    },
                }
                None
            },
            QueryStage::ResolvingStatus => {
                match get_feature_index(reply) {
                    Ok(index) => {
                        self.battery_feature_index = Some(index);
                        self.is_unified_battery = false;
                        self.stage = QueryStage::Reading;
                        None
                    },
                    Err(e) => {
                        self.stage = QueryStage::Finished;
                        Some(Err(e))
                    },
                }
            },
            QueryStage::Reading => {
                self.stage = QueryStage::Finished;
                match reply {
                    Ok(bytes) => Some(
                        parse_battery_response(bytes.as_slice(), self.is_unified_battery),
                    ),
                    Err(e) => Some(Err(e)),
                }
            },
            QueryStage::Finished => None,
        }
    }
}

} // verus!
