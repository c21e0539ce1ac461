//! Wire codec: the fixed-size HID++ request and response frames.
//!
//! A short frame is `[0x10, device index, feature index, function and tag,
//! p0, p1, p2]`; a long frame is `[0x11, device index, feature index, function
//! and tag, sixteen payload bytes]`. The function identifier takes the upper
//! four bits of the fourth byte and the request tag the lower four.

use vstd::prelude::*;
use crate::hidpp::report_type;

verus! {

/// Length of a short frame in bytes.
pub const SHORT_FRAME_LEN: usize = 7;

/// Length of a long frame in bytes.
pub const LONG_FRAME_LEN: usize = 20;

/// Function identifier and request tag packed into one byte.
pub open spec fn pack_function_sw(function_id: u8, sw_id: u8) -> u8 {
    (function_id << 4) | (sw_id & 0x0F)
}

/// The function identifier held by a packed byte.
pub open spec fn unpack_function(function_sw_id: u8) -> u8 {
    function_sw_id >> 4
}

/// The request tag held by a packed byte.
pub open spec fn unpack_sw(function_sw_id: u8) -> u8 {
    function_sw_id & 0x0F
}

/// The first `n` bytes of `params`, followed by zeros where `params` is
/// shorter than `n`.
pub open spec fn zero_padded(params: Seq<u8>, n: nat) -> Seq<u8> {
    Seq::new(
        n,
        |i: int|
            if i < params.len() {
                params[i]
            } else {
                0u8
            },
    )
}

/// Packing and unpacking are inverse on four-bit values.
pub proof fn lemma_pack_unpack(function_id: u8, sw_id: u8)
    requires
        function_id < 16,
        sw_id < 16,
    ensures
        unpack_function(pack_function_sw(function_id, sw_id)) == function_id,
        unpack_sw(pack_function_sw(function_id, sw_id)) == sw_id,
{
    assert(((function_id << 4) | (sw_id & 0x0F)) >> 4 == function_id) by (bit_vector)
        requires
            function_id < 16,
            sw_id < 16,
    ;
    assert(((function_id << 4) | (sw_id & 0x0F)) & 0x0F == sw_id) by (bit_vector)
        requires
            function_id < 16,
            sw_id < 16,
    ;
}

/// Both halves of a byte are four-bit values.
pub proof fn lemma_unpack_bounds(function_sw_id: u8)
    ensures
        unpack_function(function_sw_id) < 16,
        unpack_sw(function_sw_id) < 16,
{
    assert(function_sw_id >> 4 < 16) by (bit_vector);
    assert(function_sw_id & 0x0F < 16) by (bit_vector);
}

/// HID++ 2.0 short message, 7 bytes on the wire.
#[derive(Debug, Clone, Copy)]
pub struct HidppShortMessage {
    /// Report type, `0x10` for a short message.
    pub report_type: u8,
    /// Device index: `0xFF` for a direct connection, a slot number behind a
    /// receiver.
    pub device_index: u8,
    /// Index of the feature in the device's feature table.
    pub feature_index: u8,
    /// Function identifier in the upper four bits, request tag in the lower.
    pub function_sw_id: u8,
    /// Payload.
    pub params: [u8; 3],
}

impl HidppShortMessage {
    /// The seven bytes of the message on the wire.
    pub open spec fn spec_bytes(&self) -> Seq<u8> {
        seq![
            self.report_type,
            self.device_index,
            self.feature_index,
            self.function_sw_id,
            self.params[0],
            self.params[1],
            self.params[2],
        ]
    }

    /// The message that a buffer holds, if it holds one: the buffer has at
    /// least seven bytes and starts with the short report type.
    pub open spec fn spec_from_bytes(bytes: Seq<u8>) -> Option<Self> {
        if bytes.len() < 7 || bytes[0] != report_type::SHORT {
            None
        } else {
            Some(
                HidppShortMessage {
                    report_type: bytes[0],
                    device_index: bytes[1],
                    feature_index: bytes[2],
                    function_sw_id: bytes[3],
                    params: [bytes[4], bytes[5], bytes[6]],
                },
            )
        }
    }

    /// Creates a short message with an empty payload.
    pub fn new(device_index: u8, feature_index: u8, function_id: u8, sw_id: u8) -> (msg: Self)
        ensures
            msg.report_type == report_type::SHORT,
            msg.device_index == device_index,
            msg.feature_index == feature_index,
            msg.function_sw_id == pack_function_sw(function_id, sw_id),
            msg.params@ == seq![0u8, 0u8, 0u8],
    {
        let msg = Self {
            report_type: report_type::SHORT,
            device_index,
            feature_index,
            function_sw_id: (function_id << 4) | (sw_id & 0x0F),
            params: [0u8, 0u8, 0u8],
        };
        msg
    }

    /// Replaces the payload.
    pub fn with_params(self, params: [u8; 3]) -> (msg: Self)
        ensures
            msg.report_type == self.report_type,
            msg.device_index == self.device_index,
            msg.feature_index == self.feature_index,
            msg.function_sw_id == self.function_sw_id,
            msg.params == params,
    {
        let mut msg = self;
        msg.params = params;
        msg
    }

    /// The bytes to send.
    pub fn to_bytes(&self) -> (bytes: [u8; 7])
        ensures
            bytes@ == self.spec_bytes(),
    {
        let bytes = [
            self.report_type,
            self.device_index,
            self.feature_index,
            self.function_sw_id,
            self.params[0],
            self.params[1],
            self.params[2],
        ];
        bytes
    }

    /// Parses a received buffer. Bytes after the seventh are ignored.
    pub fn from_bytes(bytes: &[u8]) -> (parsed: Option<Self>)
        ensures
            parsed == Self::spec_from_bytes(bytes@),
            parsed is Some <==> bytes@.len() >= 7 && bytes@[0] == report_type::SHORT,
    {
        if bytes.len() < 7 || bytes[0] != report_type::SHORT {
            return None;
        }
        Some(
            Self {
                report_type: bytes[0],
                device_index: bytes[1],
                feature_index: bytes[2],
                function_sw_id: bytes[3],
                params: [bytes[4], bytes[5], bytes[6]],
            },
        )
    }

    /// The function identifier.
    pub fn function_id(&self) -> (id: u8)
        ensures
            id == unpack_function(self.function_sw_id),
            id < 16,
    {
        proof {
            lemma_unpack_bounds(self.function_sw_id);
        }
        self.function_sw_id >> 4
    }

    /// The request tag.
    pub fn sw_id(&self) -> (id: u8)
        ensures
            id == unpack_sw(self.function_sw_id),
            id < 16,
    {
        proof {
            lemma_unpack_bounds(self.function_sw_id);
        }
        self.function_sw_id & 0x0F
    }
}

/// HID++ 2.0 long message, 20 bytes on the wire.
#[derive(Debug, Clone, Copy)]
pub struct HidppLongMessage {
    /// Report type, `0x11` for a long message.
    pub report_type: u8,
    /// Device index.
    pub device_index: u8,
    /// Index of the feature in the device's feature table.
    pub feature_index: u8,
    /// Function identifier in the upper four bits, request tag in the lower.
    pub function_sw_id: u8,
    /// Payload.
    pub params: [u8; 16],
}

/// `base` with its first bytes replaced by those of `params`, as far as
/// `params` and `base` both reach.
pub open spec fn overlaid(base: Seq<u8>, params: Seq<u8>) -> Seq<u8> {
    Seq::new(
        base.len(),
        |i: int|
            if i < params.len() {
                params[i]
            } else {
                base[i]
            },
    )
}

impl HidppLongMessage {
    /// The twenty bytes of the message on the wire.
    pub open spec fn spec_bytes(&self) -> Seq<u8> {
        seq![self.report_type, self.device_index, self.feature_index, self.function_sw_id]
            + self.params@
    }

    /// The message that a buffer holds, if it holds one: the buffer has at
    /// least twenty bytes and starts with the long report type.
    pub open spec fn spec_from_bytes(bytes: Seq<u8>) -> Option<Self> {
        if bytes.len() < 20 || bytes[0] != report_type::LONG {
            None
        } else {
            Some(
                HidppLongMessage {
                    report_type: bytes[0],
                    device_index: bytes[1],
                    feature_index: bytes[2],
                    function_sw_id: bytes[3],
                    params: [
                        bytes[4],
                        bytes[5],
                        bytes[6],
                        bytes[7],
                        bytes[8],
                        bytes[9],
                        bytes[10],
                        bytes[11],
                        bytes[12],
                        bytes[13],
                        bytes[14],
                        bytes[15],
                        bytes[16],
                        bytes[17],
                        bytes[18],
                        bytes[19],
                    ],
                },
            )
        }
    }

    /// Creates a long message with an empty payload.
    pub fn new(device_index: u8, feature_index: u8, function_id: u8, sw_id: u8) -> (msg: Self)
        ensures
            msg.report_type == report_type::LONG,
            msg.device_index == device_index,
            msg.feature_index == feature_index,
            msg.function_sw_id == pack_function_sw(function_id, sw_id),
            msg.params@ == zero_padded(Seq::empty(), 16),
    {
        let msg = Self {
            report_type: report_type::LONG,
            device_index,
            feature_index,
            function_sw_id: (function_id << 4) | (sw_id & 0x0F),
            params: [0u8;16],
        };
        msg
    }

    /// Writes `params` over the start of the payload. Bytes of `params` after
    /// the sixteenth are dropped; payload bytes that `params` does not reach
    /// keep their value.
    pub fn with_params(self, params: &[u8]) -> (msg: Self)
        ensures
            msg.report_type == self.report_type,
            msg.device_index == self.device_index,
            msg.feature_index == self.feature_index,
            msg.function_sw_id == self.function_sw_id,
            msg.params@ == overlaid(self.params@, params@),
    {
        let mut msg = self;
        let len: usize = if params.len() < 16 {
            params.len()
        } else {
            16
        };
        let mut i: usize = 0;
        while i < len
            invariant
                i <= len <= 16,
                len <= params@.len(),
                msg.report_type == self.report_type,
                msg.device_index == self.device_index,
                msg.feature_index == self.feature_index,
                msg.function_sw_id == self.function_sw_id,
                forall|j: int| 0 <= j < i ==> msg.params@[j] == params@[j],
                forall|j: int| i <= j < 16 ==> msg.params@[j] == self.params@[j],
            decreases len - i,
        {
            msg.params[i] = params[i];
            i = i + 1;
        }
        msg
    }

    /// The bytes to send.
    pub fn to_bytes(&self) -> (bytes: [u8; 20])
        ensures
            bytes@ == self.spec_bytes(),
    {
        let bytes = [
            self.report_type,
            self.device_index,
            self.feature_index,
            self.function_sw_id,
            self.params[0],
            self.params[1],
            self.params[2],
            self.params[3],
            self.params[4],
            self.params[5],
            self.params[6],
            self.params[7],
            self.params[8],
            self.params[9],
            self.params[10],
            self.params[11],
            self.params[12],
            self.params[13],
            self.params[14],
            self.params[15],
        ];
        bytes
    }

    /// Parses a received buffer. Bytes after the twentieth are ignored.
    pub fn from_bytes(bytes: &[u8]) -> (parsed: Option<Self>)
        ensures
            parsed == Self::spec_from_bytes(bytes@),
            parsed is Some <==> bytes@.len() >= 20 && bytes@[0] == report_type::LONG,
    {
        if bytes.len() < 20 || bytes[0] != report_type::LONG {
            return None;
        }
        Some(
            Self {
                report_type: bytes[0],
                device_index: bytes[1],
                feature_index: bytes[2],
                function_sw_id: bytes[3],
                params: [
                    bytes[4],
                    bytes[5],
                    bytes[6],
                    bytes[7],
                    bytes[8],
                    bytes[9],
                    bytes[10],
                    bytes[11],
                    bytes[12],
                    bytes[13],
                    bytes[14],
                    bytes[15],
                    bytes[16],
                    bytes[17],
                    bytes[18],
                    bytes[19],
                ],
            },
        )
    }
}

/// The short frame that carries the given fields: the payload is cut after
/// three bytes and padded with zeros.
pub open spec fn short_frame(
    device_index: u8,
    feature_index: u8,
    function_id: u8,
    sw_id: u8,
    params: Seq<u8>,
) -> Seq<u8> {
    seq![report_type::SHORT, device_index, feature_index, pack_function_sw(function_id, sw_id)]
        + zero_padded(params, 3)
}

/// The long frame that carries the given fields: the payload is cut after
/// sixteen bytes and padded with zeros.
pub open spec fn long_frame(
    device_index: u8,
    feature_index: u8,
    function_id: u8,
    sw_id: u8,
    params: Seq<u8>,
) -> Seq<u8> {
    seq![report_type::LONG, device_index, feature_index, pack_function_sw(function_id, sw_id)]
        + zero_padded(params, 16)
}

/// Encodes a short frame. Encoding never fails: payload bytes after the third
/// are dropped.
pub fn encode_short(
    device_index: u8,
    feature_index: u8,
    function_id: u8,
    sw_id: u8,
    params: &[u8],
) -> (frame: [u8; 7])
    ensures
        frame@ == short_frame(device_index, feature_index, function_id, sw_id, params@),
{
    let p0: u8 = if params.len() > 0 {
        params[0]
    } else {
        0
    };
    let p1: u8 = if params.len() > 1 {
        params[1]
    } else {
        0
    };
    let p2: u8 = if params.len() > 2 {
        params[2]
    } else {
        0
    };
    let frame = [
        report_type::SHORT,
        device_index,
        feature_index,
        (function_id << 4) | (sw_id & 0x0F),
        p0,
        p1,
        p2,
    ];
    frame
}

/// Encodes a long frame. Encoding never fails: payload bytes after the
/// sixteenth are dropped.
pub fn encode_long(
    device_index: u8,
    feature_index: u8,
    function_id: u8,
    sw_id: u8,
    params: &[u8],
) -> (frame: [u8; 20])
    ensures
        frame@ == long_frame(device_index, feature_index, function_id, sw_id, params@),
{
    let msg = HidppLongMessage::new(device_index, feature_index, function_id, sw_id).with_params(
        params,
    );
    let frame = msg.to_bytes();
    frame
}

/// Decodes a short frame; `None` where the buffer is too short or does not
/// start with the short report type.
pub fn decode_short(bytes: &[u8]) -> (parsed: Option<HidppShortMessage>)
    ensures
        parsed == HidppShortMessage::spec_from_bytes(bytes@),
{
    HidppShortMessage::from_bytes(bytes)
}

/// Decodes a long frame; `None` where the buffer is too short or does not
/// start with the long report type.
pub fn decode_long(bytes: &[u8]) -> (parsed: Option<HidppLongMessage>)
    ensures
        parsed == HidppLongMessage::spec_from_bytes(bytes@),
{
    HidppLongMessage::from_bytes(bytes)
}

/// Parsing the bytes of a short message gives the message back.
pub proof fn lemma_short_message_round_trip(msg: HidppShortMessage)
    requires
        msg.report_type == report_type::SHORT,
    ensures
        HidppShortMessage::spec_from_bytes(msg.spec_bytes()) == Some(msg),
{
    let parsed = HidppShortMessage::spec_from_bytes(msg.spec_bytes()).unwrap();
    assert(parsed.params =~= msg.params);
}

/// Parsing the bytes of a long message gives the message back.
pub proof fn lemma_long_message_round_trip(msg: HidppLongMessage)
    requires
        msg.report_type == report_type::LONG,
    ensures
        HidppLongMessage::spec_from_bytes(msg.spec_bytes()) == Some(msg),
{
    let parsed = HidppLongMessage::spec_from_bytes(msg.spec_bytes()).unwrap();
    assert(parsed.params =~= msg.params);
}

/// Decoding an encoded short frame gives every field back, for four-bit
/// function identifiers and tags and a payload of at most three bytes.
pub proof fn lemma_short_frame_round_trip(
    device_index: u8,
    feature_index: u8,
    function_id: u8,
    sw_id: u8,
    params: Seq<u8>,
)
    requires
        function_id < 16,
        sw_id < 16,
        params.len() <= 3,
    ensures
        ({
            let decoded = HidppShortMessage::spec_from_bytes(
                short_frame(device_index, feature_index, function_id, sw_id, params),
            );
            &&& decoded is Some
            &&& decoded.unwrap().device_index == device_index
            &&& decoded.unwrap().feature_index == feature_index
            &&& unpack_function(decoded.unwrap().function_sw_id) == function_id
            &&& unpack_sw(decoded.unwrap().function_sw_id) == sw_id
            &&& decoded.unwrap().params@ == zero_padded(params, 3)
            &&& decoded.unwrap().params@.subrange(0, params.len() as int) == params
        }),
{
    lemma_pack_unpack(function_id, sw_id);
}

/// Decoding an encoded long frame gives every field back, for four-bit
/// function identifiers and tags and a payload of at most sixteen bytes.
pub proof fn lemma_long_frame_round_trip(
    device_index: u8,
    feature_index: u8,
    function_id: u8,
    sw_id: u8,
    params: Seq<u8>,
)
    requires
        function_id < 16,
        sw_id < 16,
        params.len() <= 16,
    ensures
        ({
            let decoded = HidppLongMessage::spec_from_bytes(
                long_frame(device_index, feature_index, function_id, sw_id, params),
            );
            &&& decoded is Some
            &&& decoded.unwrap().device_index == device_index
            &&& decoded.unwrap().feature_index == feature_index
            &&& unpack_function(decoded.unwrap().function_sw_id) == function_id
            &&& unpack_sw(decoded.unwrap().function_sw_id) == sw_id
            &&& decoded.unwrap().params@ == zero_padded(params, 16)
            &&& decoded.unwrap().params@.subrange(0, params.len() as int) == params
        }),
{
    lemma_pack_unpack(function_id, sw_id);
}

/// A buffer that is shorter than the frame, or that starts with another byte
/// than the frame's report type, decodes to nothing.
pub proof fn lemma_decode_rejects(bytes: Seq<u8>)
    ensures
        bytes.len() < 7 || bytes[0] != report_type::SHORT ==> HidppShortMessage::spec_from_bytes(
            bytes,
        ) is None,
        bytes.len() < 20 || bytes[0] != report_type::LONG ==> HidppLongMessage::spec_from_bytes(
            bytes,
        ) is None,
{
}

} // verus!
