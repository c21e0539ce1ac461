//! The device session: what is known of one connected device, the requests
//! that address its capabilities, and the meaning of its replies.
//!
//! A session never touches the channel. Each capability comes as a pair: a
//! function that builds the request to send, and a function that takes the
//! reply of the exchange, `None` where the exchange brought none, and says
//! what it means.

use vstd::prelude::*;
use std::collections::HashMap;
use crate::hidpp::blocklisted_features::spec_is_blocklisted;
use crate::hidpp::discovery::ConnectionType;
use crate::hidpp::error::HapticError;
use crate::hidpp::exchange::{reply_bytes, HidppRequest, SOFTWARE_ID};
use crate::hidpp::message::{encode_long, long_frame};
use crate::hidpp::features;
use crate::hidpp::patterns::Mx4HapticPattern;
use crate::hidpp::report_type;
use crate::hidpp::safety::{spec_verify_feature_safety, verify_feature_safety};

verus! {

/// Feature index of the root feature, which every device has at index 0.
pub const ROOT_FEATURE_INDEX: u8 = 0x00;

/// Root function that resolves a feature identifier to its table index.
pub const ROOT_GET_FEATURE_INDEX: u8 = 0x00;

/// Root function that echoes a byte and reports the protocol version.
pub const ROOT_PING: u8 = 0x01;

/// The byte that the ping sends and expects back.
pub const PING_DATA: u8 = 0xAA;

/// Feature-set function that reports the number of features.
pub const FEATURE_SET_GET_COUNT: u8 = 0x00;

/// Feature-set function that reports the identifier at a table position.
pub const FEATURE_SET_GET_FEATURE_ID: u8 = 0x01;

/// DPI function that lists the supported values of a sensor.
pub const DPI_GET_SENSOR_DPI_LIST: u8 = 0x01;

/// DPI function that reads a sensor's current value.
pub const DPI_GET_SENSOR_DPI: u8 = 0x02;

/// DPI function that sets a sensor's value.
pub const DPI_SET_SENSOR_DPI: u8 = 0x03;

/// Function of the legacy force-feedback feature that plays one pulse.
pub const LEGACY_HAPTIC_PLAY: u8 = 0x00;

/// Feature index to which waveform commands are sent. The haptic motor
/// answers at this fixed index, not at an index read from the feature table.
pub const MX4_HAPTIC_FEATURE_INDEX: u8 = 0x0B;

/// Function that plays a waveform.
pub const MX4_HAPTIC_FUNCTION: u8 = 0x04;

/// Request tag that the haptic motor expects on a waveform command.
pub const MX4_HAPTIC_SW_ID: u8 = 0x0E;

/// Smallest DPI value that marks a step of a range, not a value of its own.
pub const DPI_STEP_MARKER: u16 = 0xE000;

/// The upper byte of a 16-bit value.
pub open spec fn spec_high_byte(value: u16) -> u8 {
    (value / 256) as u8
}

/// The lower byte of a 16-bit value.
pub open spec fn spec_low_byte(value: u16) -> u8 {
    (value % 256) as u8
}

/// The 16-bit value of two bytes, most significant first.
pub open spec fn spec_be16(high: u8, low: u8) -> u16 {
    (high * 256 + low) as u16
}

/// The upper byte of a 16-bit value.
pub fn high_byte(value: u16) -> (byte: u8)
    ensures
        byte == spec_high_byte(value),
{
    assert(value >> 8 == value / 256) by (bit_vector);
    (value >> 8) as u8
}

/// The lower byte of a 16-bit value.
pub fn low_byte(value: u16) -> (byte: u8)
    ensures
        byte == spec_low_byte(value),
{
    assert(value & 0xFF == value % 256) by (bit_vector);
    (value & 0xFF) as u8
}

/// The 16-bit value of two bytes, most significant first.
pub fn be16(high: u8, low: u8) -> (value: u16)
    ensures
        value == spec_be16(high, low),
{
    let wide_high: u16 = high as u16;
    let wide_low: u16 = low as u16;
    assert((wide_high << 8) | wide_low == wide_high * 256 + wide_low) by (bit_vector)
        requires
            wide_high < 256,
            wide_low < 256,
    ;
    (wide_high << 8) | wide_low
}

/// Splitting a 16-bit value into bytes and joining them gives it back.
pub proof fn lemma_be16_round_trip(value: u16)
    ensures
        spec_be16(spec_high_byte(value), spec_low_byte(value)) == value,
{
}

/// The ping that shows whether a device speaks HID++ 2.0.
pub open spec fn spec_ping_request() -> HidppRequest {
    HidppRequest {
        feature_index: ROOT_FEATURE_INDEX,
        function: ROOT_PING,
        params: [0u8, 0u8, PING_DATA],
    }
}

/// The request that resolves a feature identifier to its table index. There
/// is none for a forbidden feature: the safety gate refuses it.
pub open spec fn spec_feature_index_request(feature_id: u16) -> Result<HidppRequest, HapticError> {
    match spec_verify_feature_safety(feature_id) {
        Err(violation) => Err(violation),
        Ok(_) => Ok(
            HidppRequest {
                feature_index: ROOT_FEATURE_INDEX,
                function: ROOT_GET_FEATURE_INDEX,
                params: [spec_high_byte(feature_id), spec_low_byte(feature_id), 0u8],
            },
        ),
    }
}

/// The request for the number of features in the table.
pub open spec fn spec_feature_count_request(feature_set_index: u8) -> HidppRequest {
    HidppRequest {
        feature_index: feature_set_index,
        function: FEATURE_SET_GET_COUNT,
        params: [0u8, 0u8, 0u8],
    }
}

/// The request for the feature identifier at a table position.
pub open spec fn spec_feature_id_request(feature_set_index: u8, position: u8) -> HidppRequest {
    HidppRequest {
        feature_index: feature_set_index,
        function: FEATURE_SET_GET_FEATURE_ID,
        params: [position, 0u8, 0u8],
    }
}

/// Whether a ping was answered with the byte that was sent.
pub open spec fn spec_validate_hidpp20(reply: Option<Seq<u8>>) -> bool {
    reply matches Some(bytes) && bytes.len() >= 7 && bytes[6] == PING_DATA
}

/// The table index that a reply reports for a feature; `None` where there is
/// no reply, the reply is too short, or the index is 0, which says that the
/// device lacks the feature.
pub open spec fn spec_get_feature_index(reply: Option<Seq<u8>>) -> Option<u8> {
    match reply {
        Some(bytes) => if bytes.len() >= 5 && bytes[4] != 0 {
            Some(bytes[4])
        } else {
            None
        },
        None => None,
    }
}

/// The number of features that a reply reports.
pub open spec fn spec_feature_count(reply: Option<Seq<u8>>) -> Option<u8> {
    match reply {
        Some(bytes) => if bytes.len() >= 5 {
            Some(bytes[4])
        } else {
            None
        },
        None => None,
    }
}

/// The feature identifier that a reply reports for a table position.
pub open spec fn spec_feature_id(reply: Option<Seq<u8>>) -> Option<u16> {
    match reply {
        Some(bytes) => if bytes.len() >= 6 {
            Some(spec_be16(bytes[4], bytes[5]))
        } else {
            None
        },
        None => None,
    }
}

/// The DPI value that a reply reports.
pub open spec fn spec_dpi_of_reply(reply: Option<Seq<u8>>) -> Option<u16> {
    match reply {
        Some(bytes) => if bytes.len() >= 7 {
            Some(spec_be16(bytes[5], bytes[6]))
        } else {
            None
        },
        None => None,
    }
}

/// The DPI values listed in a payload of two-byte values, most significant
/// byte first, read from position `from` on. A zero value ends the list; a
/// value of `0xE000` or more marks a step of a range and is left out; a
/// single byte at the end is ignored.
pub open spec fn spec_parse_dpi_list(data: Seq<u8>, from: int) -> Seq<u16>
    decreases data.len() - from,
{
    if from < 0 || from + 1 >= data.len() {
        Seq::empty()
    } else {
        let dpi = spec_be16(data[from], data[from + 1]);
        if dpi == 0 {
            Seq::empty()
        } else if dpi >= DPI_STEP_MARKER {
            spec_parse_dpi_list(data, from + 2)
        } else {
            seq![dpi] + spec_parse_dpi_list(data, from + 2)
        }
    }
}

/// The DPI values that a reply lists: the list starts at the sixth byte.
pub open spec fn spec_dpi_list_of_reply(reply: Option<Seq<u8>>) -> Option<Seq<u16>> {
    match reply {
        Some(bytes) => if bytes.len() >= 6 {
            Some(spec_parse_dpi_list(bytes, 5))
        } else {
            None
        },
        None => None,
    }
}

/// The ping that shows whether a device speaks HID++ 2.0.
pub fn ping_request() -> (request: HidppRequest)
    ensures
        request == spec_ping_request(),
{
    HidppRequest {
        feature_index: ROOT_FEATURE_INDEX,
        function: ROOT_PING,
        params: [0u8, 0u8, PING_DATA],
    }
}

/// The request that resolves a feature identifier to its table index. The
/// identifier goes through the safety gate first, and its refusal is
/// passed on: no request is ever built for a forbidden feature.
pub fn feature_index_request(feature_id: u16) -> (request: Result<HidppRequest, HapticError>)
    ensures
        request == spec_feature_index_request(feature_id),
        request is Err <==> spec_is_blocklisted(feature_id),
{
    match verify_feature_safety(feature_id) {
        Err(violation) => Err(violation),
        Ok(_) => Ok(
            HidppRequest {
                feature_index: ROOT_FEATURE_INDEX,
                function: ROOT_GET_FEATURE_INDEX,
                params: [high_byte(feature_id), low_byte(feature_id), 0u8],
            },
        ),
    }
}

/// The request for the number of features in the table.
pub fn feature_count_request(feature_set_index: u8) -> (request: HidppRequest)
    ensures
        request == spec_feature_count_request(feature_set_index),
{
    HidppRequest {
        feature_index: feature_set_index,
        function: FEATURE_SET_GET_COUNT,
        params: [0u8, 0u8, 0u8],
    }
}

/// The request for the feature identifier at a table position.
pub fn feature_id_request(feature_set_index: u8, position: u8) -> (request: HidppRequest)
    ensures
        request == spec_feature_id_request(feature_set_index, position),
{
    HidppRequest {
        feature_index: feature_set_index,
        function: FEATURE_SET_GET_FEATURE_ID,
        params: [position, 0u8, 0u8],
    }
}

/// Reads the number of features from the reply to [`feature_count_request`];
/// `None` where no reply came or the reply is shorter than five bytes.
pub fn feature_count(reply: &Option<Vec<u8>>) -> (count: Option<u8>)
    ensures
        count == spec_feature_count(reply_bytes(*reply)),
{
    match reply {
        Some(bytes) => {
            if bytes.len() >= 5 {
                Some(bytes[4])
            } else {
                None
            }
        },
        None => None,
    }
}

/// Reads a feature identifier from the reply to [`feature_id_request`];
/// `None` where no reply came or the reply is shorter than six bytes.
pub fn feature_id(reply: &Option<Vec<u8>>) -> (id: Option<u16>)
    ensures
        id == spec_feature_id(reply_bytes(*reply)),
{
    match reply {
        Some(bytes) => {
            if bytes.len() >= 6 {
                Some(be16(bytes[4], bytes[5]))
            } else {
                None
            }
        },
        None => None,
    }
}

/// Says whether a device speaks HID++ 2.0, by the reply to a ping: the reply
/// must carry the pinged byte at its seventh position.
pub fn validate_hidpp20(reply: &Option<Vec<u8>>) -> (valid: bool)
    ensures
        valid == spec_validate_hidpp20(reply_bytes(*reply)),
{
    match reply {
        Some(bytes) => bytes.len() >= 7 && bytes[6] == PING_DATA,
        None => false,
    }
}

/// Reads the table index of a feature from the reply to
/// [`feature_index_request`].
pub fn get_feature_index(reply: &Option<Vec<u8>>) -> (index: Option<u8>)
    ensures
        index == spec_get_feature_index(reply_bytes(*reply)),
{
    match reply {
        Some(bytes) => {
            if bytes.len() >= 5 && bytes[4] != 0 {
                Some(bytes[4])
            } else {
                None
            }
        },
        None => None,
    }
}

/// What a capability makes of a reply: the reply itself, or a communication
/// error where the exchange brought none.
pub fn reply_or_error(reply: Option<Vec<u8>>) -> (outcome: Result<Vec<u8>, HapticError>)
    ensures
        outcome == (match reply {
            Some(bytes) => Ok::<Vec<u8>, HapticError>(bytes),
            None => Err(HapticError::CommunicationError),
        }),
{
    match reply {
        Some(bytes) => Ok(bytes),
        None => Err(HapticError::CommunicationError),
    }
}

/// Parses a list of DPI values from the payload `data`, starting at position
/// `from`.
pub fn parse_dpi_list(data: &[u8], from: usize) -> (list: Vec<u16>)
    ensures
        list@ == spec_parse_dpi_list(data@, from as int),
{
    let mut list: Vec<u16> = Vec::new();
    let mut i: usize = from;
    while i < data.len() && i + 1 < data.len()
        invariant
            from <= i,
            list@ + spec_parse_dpi_list(data@, i as int) == spec_parse_dpi_list(
                data@,
                from as int,
            ),
        decreases data.len() - i,
    {
        let dpi: u16 = be16(data[i], data[i + 1]);
        if dpi == 0 {
            return list;
        }
        if dpi < DPI_STEP_MARKER {
            let ghost before = list@;
            list.push(dpi);
            assert(list@ + spec_parse_dpi_list(data@, i + 2) =~= before + (seq![dpi]
                + spec_parse_dpi_list(data@, i + 2)));
        }
        i = i + 2;
    }
    list
}

/// What a session knows of its device.
pub struct DeviceModel {
    /// The device index stamped on every frame.
    pub device_index: u8,
    /// How the device is connected.
    pub connection_type: ConnectionType,
    /// The feature table: feature identifier to 1-based table index.
    pub features: Map<u16, u8>,
    /// Table index of the legacy force-feedback feature, once discovered.
    pub haptic_index: Option<u8>,
    /// Table index of the haptic-waveform feature, once discovered under
    /// either of its identifiers.
    pub mx4_index: Option<u8>,
    /// Table index of the adjustable-DPI feature, once discovered.
    pub dpi_index: Option<u8>,
}

impl DeviceModel {
    /// The invariant of a session. The device index is the one of the
    /// connection type, no forbidden feature is in the feature table, every index in it is 1-based, and each capability's index is the
    /// one that the table holds for the capability's feature.
    pub open spec fn wf(self) -> bool {
        &&& self.device_index == self.connection_type.spec_device_index()
        &&& forall|id: u16| #[trigger]
            self.features.contains_key(id) ==> !spec_is_blocklisted(id) && self.features[id] >= 1
        &&& self.haptic_index matches Some(i) ==> self.features.contains_pair(
            features::FORCE_FEEDBACK,
            i,
        )
        &&& self.mx4_index matches Some(i) ==> {
            ||| self.features.contains_pair(features::MX_MASTER_4_HAPTIC, i)
            ||| self.features.contains_pair(features::MX4_HAPTIC_ALT, i)
        }
        &&& self.dpi_index matches Some(i) ==> self.features.contains_pair(
            features::ADJUSTABLE_DPI,
            i,
        )
    }

    /// The session before discovery: nothing is known of the device but how
    /// it is connected.
    pub open spec fn fresh(connection_type: ConnectionType) -> DeviceModel {
        DeviceModel {
            device_index: connection_type.spec_device_index(),
            connection_type,
            features: Map::empty(),
            haptic_index: None,
            mx4_index: None,
            dpi_index: None,
        }
    }

    /// The session after the device reported `feature_id` at table position
    /// `position`. A forbidden feature changes nothing. Any other feature
    /// enters the table under the 1-based index `position + 1`, and a
    /// recognised capability is flagged with that index.
    pub open spec fn record_feature(self, position: u8, feature_id: u16) -> DeviceModel {
        if spec_is_blocklisted(feature_id) {
            self
        } else {
            let index = (position + 1) as u8;
            DeviceModel {
                device_index: self.device_index,
                connection_type: self.connection_type,
                features: self.features.insert(feature_id, index),
                haptic_index: if feature_id == features::FORCE_FEEDBACK {
                    Some(index)
                } else {
                    self.haptic_index
                },
                mx4_index: if feature_id == features::MX_MASTER_4_HAPTIC || feature_id
                    == features::MX4_HAPTIC_ALT {
                    Some(index)
                } else {
                    self.mx4_index
                },
                dpi_index: if feature_id == features::ADJUSTABLE_DPI {
                    Some(index)
                } else {
                    self.dpi_index
                },
            }
        }
    }

    /// Whether the device has a haptic motor of either kind.
    pub open spec fn haptic_supported(self) -> bool {
        self.mx4_index is Some || self.haptic_index is Some
    }

    /// The frame that plays a waveform; `None` where the device has no
    /// waveform playback.
    pub open spec fn waveform_frame(self, pattern: Mx4HapticPattern) -> Option<[u8; 7]> {
        if self.mx4_index is Some {
            Some(
                [
                    report_type::SHORT,
                    self.device_index,
                    MX4_HAPTIC_FEATURE_INDEX,
                    0x4Eu8,
                    pattern.spec_to_id(),
                    0u8,
                    0u8,
                ],
            )
        } else {
            None
        }
    }

    /// The request that plays one legacy pulse; `None` where the device has
    /// no legacy force feedback.
    pub open spec fn pulse_request(self, intensity: u8, duration_ms: u16) -> Option<HidppRequest> {
        match self.haptic_index {
            Some(index) => Some(
                HidppRequest {
                    feature_index: index,
                    function: LEGACY_HAPTIC_PLAY,
                    params: [intensity, spec_high_byte(duration_ms), spec_low_byte(duration_ms)],
                },
            ),
            None => None,
        }
    }

    /// The request to a function of the adjustable-DPI feature; not
    /// supported where the device has no adjustable DPI.
    pub open spec fn dpi_request(self, function: u8, params: [u8; 3]) -> Result<
        HidppRequest,
        HapticError,
    > {
        match self.dpi_index {
            Some(index) => Ok(HidppRequest { feature_index: index, function, params }),
            None => Err(HapticError::NotSupported),
        }
    }

    /// The request that reads the current DPI of sensor 0.
    pub open spec fn get_dpi_request(self) -> Result<HidppRequest, HapticError> {
        self.dpi_request(DPI_GET_SENSOR_DPI, [0u8, 0u8, 0u8])
    }

    /// The request that sets the DPI of sensor 0.
    pub open spec fn set_dpi_request(self, dpi: u16) -> Result<HidppRequest, HapticError> {
        self.dpi_request(DPI_SET_SENSOR_DPI, [0u8, spec_high_byte(dpi), spec_low_byte(dpi)])
    }

    /// The request that lists the DPI values of sensor 0.
    pub open spec fn get_dpi_list_request(self) -> Result<HidppRequest, HapticError> {
        self.dpi_request(DPI_GET_SENSOR_DPI_LIST, [0u8, 0u8, 0u8])
    }

    /// The request to a function of the feature with the given identifier. A
    /// forbidden feature is refused with a safety violation, and a feature
    /// that discovery did not find is not supported.
    pub open spec fn feature_request(self, feature_id: u16, function: u8, params: Seq<u8>)
        -> Result<HidppRequest, HapticError> {
        match spec_verify_feature_safety(feature_id) {
            Err(violation) => Err(violation),
            Ok(_) => if self.features.contains_key(feature_id) {
                Ok(HidppRequest::spec_new(self.features[feature_id], function, params))
            } else {
                Err(HapticError::NotSupported)
            },
        }
    }

    /// The long frame that carries a payload of up to sixteen bytes to a
    /// function of a feature.
    pub open spec fn long_frame(self, feature_index: u8, function: u8, params: Seq<u8>) -> Seq<
        u8,
    > {
        long_frame(self.device_index, feature_index, function, SOFTWARE_ID, params)
    }

    /// The current DPI, by the reply to the request for it: not supported
    /// where the device has no adjustable DPI, a communication error where
    /// no reply came or the reply is shorter than seven bytes.
    pub open spec fn get_dpi(self, reply: Option<Seq<u8>>) -> Result<u16, HapticError> {
        if self.dpi_index is None {
            Err(HapticError::NotSupported)
        } else {
            match spec_dpi_of_reply(reply) {
                Some(dpi) => Ok(dpi),
                None => Err(HapticError::CommunicationError),
            }
        }
    }

    /// The supported DPI values, by the reply to the request for them: not
    /// supported where the device has no adjustable DPI, a communication
    /// error where no reply came or the reply is shorter than six bytes.
    pub open spec fn get_dpi_list(self, reply: Option<Seq<u8>>) -> Result<Seq<u16>, HapticError> {
        if self.dpi_index is None {
            Err(HapticError::NotSupported)
        } else {
            match spec_dpi_list_of_reply(reply) {
                Some(list) => Ok(list),
                None => Err(HapticError::CommunicationError),
            }
        }
    }

    /// How setting the DPI ended, by the reply to the request: not supported
    /// where the device has no adjustable DPI, a communication error where no
    /// reply came, success on any reply.
    pub open spec fn set_dpi(self, reply: Option<Seq<u8>>) -> Result<(), HapticError> {
        if self.dpi_index is None {
            Err(HapticError::NotSupported)
        } else if reply is None {
            Err(HapticError::CommunicationError)
        } else {
            Ok(())
        }
    }
}

/// Recording a feature keeps the session's invariant.
pub proof fn lemma_record_feature_keeps_wf(model: DeviceModel, position: u8, feature_id: u16)
    requires
        model.wf(),
        position < 255,
    ensures
        model.record_feature(position, feature_id).wf(),
{
}

/// A forbidden feature never enters the feature table, whatever the device
/// reports, and never becomes a capability.
pub proof fn lemma_forbidden_feature_is_discarded(
    model: DeviceModel,
    position: u8,
    feature_id: u16,
)
    requires
        spec_is_blocklisted(feature_id),
    ensures
        model.record_feature(position, feature_id) == model,
{
}

/// Every request that a session builds for a capability addresses a feature
/// that discovery found and the safety gate let pass: the request's feature
/// index is the table's index of a feature that is not forbidden.
pub proof fn lemma_requests_address_admitted_features(
    model: DeviceModel,
    intensity: u8,
    duration_ms: u16,
    dpi: u16,
)
    requires
        model.wf(),
    ensures
        model.pulse_request(intensity, duration_ms) matches Some(r) ==> spec_admitted(
            model,
            r.feature_index,
        ),
        model.get_dpi_request() matches Ok(r) ==> spec_admitted(model, r.feature_index),
        model.set_dpi_request(dpi) matches Ok(r) ==> spec_admitted(model, r.feature_index),
        model.get_dpi_list_request() matches Ok(r) ==> spec_admitted(model, r.feature_index),
{
}

/// Whether a table index belongs to a feature that is in the session's
/// feature table and is not forbidden.
pub open spec fn spec_admitted(model: DeviceModel, feature_index: u8) -> bool {
    exists|id: u16| #[trigger]
        model.features.contains_pair(id, feature_index) && !spec_is_blocklisted(id)
}

/// One device session: how the device is connected and what discovery found
/// on it. The channel to the device is the caller's.
pub struct HidppDevice {
    device_index: u8,
    connection_type: ConnectionType,
    feature_table: HashMap<u16, u8>,
    haptic_feature_index: Option<u8>,
    mx4_haptic_feature_index: Option<u8>,
    dpi_feature_index: Option<u8>,
}

impl View for HidppDevice {
    type V = DeviceModel;

    closed spec fn view(&self) -> DeviceModel {
        DeviceModel {
            device_index: self.device_index,
            connection_type: self.connection_type,
            features: self.feature_table@,
            haptic_index: self.haptic_feature_index,
            mx4_index: self.mx4_haptic_feature_index,
            dpi_index: self.dpi_feature_index,
        }
    }
}

impl HidppDevice {
    /// Every session meets the invariant of its model.
    #[verifier::type_invariant]
    pub open spec fn inv(&self) -> bool {
        self@.wf()
    }

    /// A session for a device on the given kind of connection, before
    /// discovery.
    pub fn new(connection_type: ConnectionType) -> (device: HidppDevice)
        ensures
            device@ == DeviceModel::fresh(connection_type),
    {
        let device = HidppDevice {
            device_index: connection_type.device_index(),
            connection_type,
            feature_table: HashMap::new(),
            haptic_feature_index: None,
            mx4_haptic_feature_index: None,
            dpi_feature_index: None,
        };
        device
    }

    /// Takes note of the feature that the device reported at a table
    /// position. The identifier goes through the safety gate first: a
    /// forbidden feature is discarded, never stored. The verdict of the
    /// verification is returned: the safety violation for a forbidden
    /// feature.
    pub fn record_feature(&mut self, position: u8, feature_id: u16) -> (verdict: Result<
        (),
        HapticError,
    >)
        requires
            position < 255,
        ensures
            final(self)@ == old(self)@.record_feature(position, feature_id),
            verdict == spec_verify_feature_safety(feature_id),
            verdict is Err <==> spec_is_blocklisted(feature_id),
    {
        proof {
            use_type_invariant(&*self);
        }
        let verdict = verify_feature_safety(feature_id);
        if verdict.is_err() {
            return verdict;
        }
        let index: u8 = position + 1;
        let haptic: Option<u8> = if feature_id == features::FORCE_FEEDBACK {
            Some(index)
        } else {
            self.haptic_feature_index
        };
        let mx4: Option<u8> = if feature_id == features::MX_MASTER_4_HAPTIC || feature_id
            == features::MX4_HAPTIC_ALT {
            Some(index)
        } else {
            self.mx4_haptic_feature_index
        };
        let dpi: Option<u8> = if feature_id == features::ADJUSTABLE_DPI {
            Some(index)
        } else {
            self.dpi_feature_index
        };
        // The table is taken out of the session while it grows, so that the
        // session's invariant holds at every step.
        self.haptic_feature_index = None;
        self.mx4_haptic_feature_index = None;
        self.dpi_feature_index = None;
        let mut table: HashMap<u16, u8> = HashMap::new();
        core::mem::swap(&mut self.feature_table, &mut table);
        table.insert(feature_id, index);
        core::mem::swap(&mut self.feature_table, &mut table);
        self.haptic_feature_index = haptic;
        self.mx4_haptic_feature_index = mx4;
        self.dpi_feature_index = dpi;
        verdict
    }

    /// The device index stamped on every frame.
    pub fn device_index(&self) -> (index: u8)
        ensures
            index == self@.device_index,
    {
        self.device_index
    }

    /// How the device is connected.
    pub fn connection_type(&self) -> (kind: ConnectionType)
        ensures
            kind == self@.connection_type,
    {
        self.connection_type
    }

    /// The table index under which the device holds a feature, if discovery
    /// found and kept the feature.
    pub fn feature_index(&self, feature_id: u16) -> (index: Option<u8>)
        ensures
            index == (if self@.features.contains_key(feature_id) {
                Some(self@.features[feature_id])
            } else {
                None
            }),
            index is Some ==> !spec_is_blocklisted(feature_id),
    {
        proof {
            use_type_invariant(self);
        }
        match self.feature_table.get(&feature_id) {
            Some(index) => {
                assert(self@.features.contains_key(feature_id));
                Some(*index)
            },
            None => None,
        }
    }

    /// Number of features in the table.
    pub fn feature_count(&self) -> (count: usize)
        ensures
            count == self@.features.len(),
    {
        self.feature_table.len()
    }

    /// Whether the device has a haptic motor of either kind.
    pub fn haptic_supported(&self) -> (supported: bool)
        ensures
            supported == self@.haptic_supported(),
    {
        self.mx4_haptic_feature_index.is_some() || self.haptic_feature_index.is_some()
    }

    /// Whether the device plays native waveforms.
    pub fn mx4_haptic_supported(&self) -> (supported: bool)
        ensures
            supported == self@.mx4_index is Some,
    {
        self.mx4_haptic_feature_index.is_some()
    }

    /// Whether the device has legacy force feedback.
    pub fn legacy_haptic_supported(&self) -> (supported: bool)
        ensures
            supported == self@.haptic_index is Some,
    {
        self.haptic_feature_index.is_some()
    }

    /// Whether the device has an adjustable DPI.
    pub fn dpi_supported(&self) -> (supported: bool)
        ensures
            supported == self@.dpi_index is Some,
    {
        self.dpi_feature_index.is_some()
    }

    /// The frame that plays a waveform, to be written as it is after the
    /// channel was drained; `None` where the device has no waveform playback
    /// and nothing is to be sent. No reply is waited for.
    pub fn send_haptic_pattern(&self, pattern: Mx4HapticPattern) -> (frame: Option<[u8; 7]>)
        ensures
            frame == self@.waveform_frame(pattern),
    {
        proof {
            use_type_invariant(self);
        }
        if self.mx4_haptic_feature_index.is_none() {
            return None;
        }
        let packed: u8 = (MX4_HAPTIC_FUNCTION << 4) | MX4_HAPTIC_SW_ID;
        assert(packed == 0x4E) by (bit_vector)
            requires
                packed == (0x04u8 << 4) | 0x0Eu8,
        ;
        let frame: [u8; 7] = [
            report_type::SHORT,
            self.device_index,
            MX4_HAPTIC_FEATURE_INDEX,
            packed,
            pattern.to_id(),
            0,
            0,
        ];
        Some(frame)
    }

    /// The request that plays one legacy pulse; `None` where the device has
    /// no legacy force feedback and nothing is to be sent. The reply to the
    /// request carries no information.
    pub fn send_haptic_pulse(&self, intensity: u8, duration_ms: u16) -> (request: Option<
        HidppRequest,
    >)
        ensures
            request == self@.pulse_request(intensity, duration_ms),
    {
        match self.haptic_feature_index {
            Some(index) => Some(
                HidppRequest {
                    feature_index: index,
                    function: LEGACY_HAPTIC_PLAY,
                    params: [intensity, high_byte(duration_ms), low_byte(duration_ms)],
                },
            ),
            None => None,
        }
    }

    /// Builds the request to a function of the feature with the given
    /// identifier. The identifier goes through the safety verification first,
    /// and the feature's index is taken from the feature table: a forbidden
    /// feature is refused, and a feature that was never discovered is not
    /// supported.
    pub fn feature_request(&self, feature_id: u16, function: u8, params: &[u8]) -> (request:
        Result<HidppRequest, HapticError>)
        ensures
            request == self@.feature_request(feature_id, function, params@),
    {
        match verify_feature_safety(feature_id) {
            Err(violation) => Err(violation),
            Ok(_) => match self.feature_table.get(&feature_id) {
                Some(index) => Ok(HidppRequest::new(*index, function, params)),
                None => Err(HapticError::NotSupported),
            },
        }
    }

    /// The long frame that carries a payload of up to sixteen bytes to a
    /// function of a feature, to be written as it is after the channel was
    /// drained. No reply is waited for.
    pub fn hidpp_send_long(&self, feature_index: u8, function: u8, params: &[u8]) -> (frame: [u8;
        20])
        ensures
            frame@ == self@.long_frame(feature_index, function, params@),
    {
        encode_long(self.device_index, feature_index, function, SOFTWARE_ID, params)
    }

    fn dpi_request(&self, function: u8, params: [u8; 3]) -> (request: Result<
        HidppRequest,
        HapticError,
    >)
        ensures
            request == self@.dpi_request(function, params),
    {
        match self.dpi_feature_index {
            Some(index) => Ok(HidppRequest { feature_index: index, function, params }),
            None => Err(HapticError::NotSupported),
        }
    }

    /// The request that reads the current DPI; not supported where the
    /// device has no adjustable DPI.
    pub fn get_dpi_request(&self) -> (request: Result<HidppRequest, HapticError>)
        ensures
            request == self@.get_dpi_request(),
    {
        self.dpi_request(DPI_GET_SENSOR_DPI, [0u8, 0u8, 0u8])
    }

    /// The current DPI, read from the reply to [`HidppDevice::get_dpi_request`].
    pub fn get_dpi(&self, reply: &Option<Vec<u8>>) -> (dpi: Result<u16, HapticError>)
        ensures
            dpi == self@.get_dpi(reply_bytes(*reply)),
    {
        if self.dpi_feature_index.is_none() {
            return Err(HapticError::NotSupported);
        }
        match reply {
            Some(bytes) => {
                if bytes.len() >= 7 {
                    Ok(be16(bytes[5], bytes[6]))
                } else {
                    Err(HapticError::CommunicationError)
                }
            },
            None => Err(HapticError::CommunicationError),
        }
    }

    /// The request that sets the DPI; not supported where the device has no
    /// adjustable DPI.
    pub fn set_dpi_request(&self, dpi: u16) -> (request: Result<HidppRequest, HapticError>)
        ensures
            request == self@.set_dpi_request(dpi),
    {
        self.dpi_request(DPI_SET_SENSOR_DPI, [0u8, high_byte(dpi), low_byte(dpi)])
    }

    /// How setting the DPI ended, by the reply to
    /// [`HidppDevice::set_dpi_request`].
    pub fn set_dpi(&self, reply: &Option<Vec<u8>>) -> (outcome: Result<(), HapticError>)
        ensures
            outcome == self@.set_dpi(reply_bytes(*reply)),
    {
        if self.dpi_feature_index.is_none() {
            return Err(HapticError::NotSupported);
        }
        match reply {
            Some(_) => Ok(()),
            None => Err(HapticError::CommunicationError),
        }
    }

    /// The request that lists the supported DPI values; not supported where
    /// the device has no adjustable DPI.
    pub fn get_dpi_list_request(&self) -> (request: Result<HidppRequest, HapticError>)
        ensures
            request == self@.get_dpi_list_request(),
    {
        self.dpi_request(DPI_GET_SENSOR_DPI_LIST, [0u8, 0u8, 0u8])
    }

    /// The supported DPI values, read from the reply to
    /// [`HidppDevice::get_dpi_list_request`].
    pub fn get_dpi_list(&self, reply: &Option<Vec<u8>>) -> (list: Result<Vec<u16>, HapticError>)
        ensures
            list matches Ok(values) ==> self@.get_dpi_list(reply_bytes(*reply)) == Ok::<
                Seq<u16>,
                HapticError,
            >(values@),
            list matches Err(e) ==> self@.get_dpi_list(reply_bytes(*reply)) == Err::<
                Seq<u16>,
                HapticError,
            >(e),
    {
        if self.dpi_feature_index.is_none() {
            return Err(HapticError::NotSupported);
        }
        match reply {
            Some(bytes) => {
                if bytes.len() >= 6 {
                    Ok(parse_dpi_list(bytes.as_slice(), 5))
                } else {
                    Err(HapticError::CommunicationError)
                }
            },
            None => Err(HapticError::CommunicationError),
        }
    }
}

} // verus!
