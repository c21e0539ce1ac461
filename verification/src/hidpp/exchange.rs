//! The request/response exchange over the half-duplex channel to the device.
//!
//! One exchange drains what is still buffered on the channel, writes one short
//! frame and polls for the reply that matches it. The channel itself is not
//! touched here: [`Exchange::step`] takes what the last channel operation
//! produced and answers with the next operation to perform.

use vstd::prelude::*;
use crate::hidpp::message::{encode_short, unpack_function, unpack_sw, lemma_unpack_bounds};
use crate::hidpp::report_type;

verus! {

/// Request tag that this client stamps on its requests, so that replies to
/// other software talking to the same receiver are told apart.
pub const SOFTWARE_ID: u8 = 0x01;

/// The attempt budget: the number of polls that an exchange makes at most.
/// The unanswered poll that brings the count to this number ends the
/// exchange with a timeout.
pub const MAX_POLL_ATTEMPTS: u32 = 100;

/// Pause between two polls, in milliseconds.
pub const POLL_INTERVAL_MS: u64 = 10;

/// Size of the buffer into which stale bytes are drained.
pub const DRAIN_CAPACITY: usize = 64;

/// Size of the buffer into which a reply is read.
pub const REPLY_CAPACITY: usize = 20;

/// Feature index that marks a reply as an error frame.
pub const ERROR_FEATURE_INDEX: u8 = 0xFF;

/// Feature index that marks a reply as an error frame of HID++ 1.0.
pub const LEGACY_ERROR_FEATURE_INDEX: u8 = 0x8F;

/// Fifth byte by which the battery query knows an error frame.
pub const BATTERY_ERROR_CODE: u8 = 0x05;

/// A request to one function of one feature.
#[derive(Debug, Clone, Copy, PartialEq, Eq)]
pub struct HidppRequest {
    /// Index of the feature in the device's feature table.
    pub feature_index: u8,
    /// Function of the feature.
    pub function: u8,
    /// Payload.
    pub params: [u8; 3],
}

/// What one non-blocking read on the channel produced.
#[derive(Debug)]
pub enum ReadOutcome {
    /// The bytes that were read.
    Data(Vec<u8>),
    /// Nothing is buffered.
    WouldBlock,
    /// The read failed.
    Failed,
}

/// What the last channel operation produced.
#[derive(Debug)]
pub enum ChannelEvent {
    /// A read completed.
    Read(ReadOutcome),
    /// A write completed: `true` where every byte was written.
    Written(bool),
    /// A pause is over.
    Slept,
}

/// How an exchange ended.
#[derive(Debug)]
pub enum ExchangeOutcome {
    /// The reply that matches the request, as it was read.
    Response(Vec<u8>),
    /// The device answered with an error frame that carries this cause code.
    DeviceError { code: u8 },
    /// The device answered with an error frame of HID++ 1.0.
    LegacyError,
    /// The request could not be written.
    WriteFailed,
    /// A read failed while polling.
    ReadFailed,
    /// No matching reply arrived within the attempt budget.
    Timeout,
}

/// The next channel operation of an exchange.
#[derive(Debug)]
pub enum ExchangeAction {
    /// Read once, without blocking, into a buffer of this size.
    Read { capacity: usize },
    /// Write this frame.
    Write([u8; 7]),
    /// Pause for this many milliseconds.
    Sleep(u64),
    /// The exchange is over.
    Finish(ExchangeOutcome),
    /// The exchange ended earlier; there is nothing to do.
    Idle,
}

/// Where an exchange stands.
#[derive(Debug, Clone, Copy, PartialEq, Eq, Structural)]
pub enum ExchangePhase {
    /// Stale bytes are being read off the channel.
    Draining,
    /// The request is being written.
    Writing,
    /// A reply is being read.
    Polling,
    /// The pause between two polls.
    Sleeping,
    /// The exchange is over.
    Finished,
}

/// What a received frame means to the exchange that is waiting.
#[derive(Debug, Clone, Copy, PartialEq, Eq, Structural)]
pub enum ReplyVerdict {
    /// The frame answers the request.
    Matched,
    /// The frame is an error frame with this cause code.
    DeviceError { code: u8 },
    /// The frame is an error frame of HID++ 1.0.
    LegacyError,
    /// The frame is something else: a notification, a reply to other
    /// software, or too short to be a frame.
    Unrelated,
}

/// How an exchange tells an error frame from other traffic.
#[derive(Debug, Clone, Copy, PartialEq, Eq, Structural)]
pub enum ReplyRule {
    /// A frame whose feature index is the error marker `0xFF` is an error
    /// frame and carries the cause code in its sixth byte; a frame whose
    /// feature index is `0x8F` is an error frame of HID++ 1.0.
    Standard,
    /// The rule of the battery query: a frame whose feature index is `0x8F`
    /// is an error frame, and so is a frame for the requested feature whose
    /// fifth byte is `0x05`.
    BatteryQuery,
}

/// One request/response exchange in progress.
#[derive(Debug, Clone, Copy, PartialEq, Eq)]
pub struct Exchange {
    /// Device index stamped on the request and expected on the reply.
    pub device_index: u8,
    /// The request.
    pub request: HidppRequest,
    /// How error frames are told from other traffic.
    pub rule: ReplyRule,
    /// Polls that went unanswered and were followed by a pause.
    pub attempts: u32,
    /// Where the exchange stands.
    pub phase: ExchangePhase,
}

/// Whether a frame of at least seven bytes answers the given request: device
/// index, feature index, function and request tag all match.
pub open spec fn reply_matches(device_index: u8, request: HidppRequest, frame: Seq<u8>) -> bool {
    &&& frame[1] == device_index
    &&& frame[2] == request.feature_index
    &&& unpack_function(frame[3]) == request.function
    &&& unpack_sw(frame[3]) == SOFTWARE_ID
}

/// What a frame that does not answer the request means under a rule.
pub open spec fn spec_classify_unmatched(
    request: HidppRequest,
    rule: ReplyRule,
    frame: Seq<u8>,
) -> ReplyVerdict {
    match rule {
        ReplyRule::Standard => if frame[2] == ERROR_FEATURE_INDEX {
            ReplyVerdict::DeviceError { code: frame[5] }
        } else if frame[2] == LEGACY_ERROR_FEATURE_INDEX {
            ReplyVerdict::LegacyError
        } else {
            ReplyVerdict::Unrelated
        },
        ReplyRule::BatteryQuery => if frame[2] == LEGACY_ERROR_FEATURE_INDEX {
            ReplyVerdict::LegacyError
        } else if frame[2] == request.feature_index && frame[4] == BATTERY_ERROR_CODE {
            ReplyVerdict::DeviceError { code: frame[4] }
        } else {
            ReplyVerdict::Unrelated
        },
    }
}

/// What a received frame means to an exchange. A frame that matches the
/// request is the reply even where its feature index is an error marker; of
/// the two error markers the current one is looked at first.
pub open spec fn spec_classify_reply(
    device_index: u8,
    request: HidppRequest,
    rule: ReplyRule,
    frame: Seq<u8>,
) -> ReplyVerdict {
    if frame.len() < 7 {
        ReplyVerdict::Unrelated
    } else if frame[0] != report_type::SHORT && frame[0] != report_type::LONG {
        ReplyVerdict::Unrelated
    } else if reply_matches(device_index, request, frame) {
        ReplyVerdict::Matched
    } else {
        spec_classify_unmatched(request, rule, frame)
    }
}

/// Decides what a received frame means to the exchange that is waiting for a
/// reply to `request`.
pub fn classify_reply(
    device_index: u8,
    request: &HidppRequest,
    rule: ReplyRule,
    frame: &[u8],
) -> (verdict: ReplyVerdict)
    ensures
        verdict == spec_classify_reply(device_index, *request, rule, frame@),
{
    if frame.len() < 7 {
        return ReplyVerdict::Unrelated;
    }
    if frame[0] != report_type::SHORT && frame[0] != report_type::LONG {
        return ReplyVerdict::Unrelated;
    }
    let packed: u8 = frame[3];
    let reply_function: u8 = packed >> 4;
    let reply_sw_id: u8 = packed & 0x0F;
    if frame[1] == device_index && frame[2] == request.feature_index && reply_function
        == request.function && reply_sw_id == SOFTWARE_ID {
        return ReplyVerdict::Matched;
    }
    match rule {
        ReplyRule::Standard => {
            if frame[2] == ERROR_FEATURE_INDEX {
                ReplyVerdict::DeviceError { code: frame[5] }
            } else if frame[2] == LEGACY_ERROR_FEATURE_INDEX {
                ReplyVerdict::LegacyError
            } else {
                ReplyVerdict::Unrelated
            }
        },
        ReplyRule::BatteryQuery => {
            if frame[2] == LEGACY_ERROR_FEATURE_INDEX {
                ReplyVerdict::LegacyError
            } else if frame[2] == request.feature_index && frame[4] == BATTERY_ERROR_CODE {
                ReplyVerdict::DeviceError { code: frame[4] }
            } else {
                ReplyVerdict::Unrelated
            }
        },
    }
}

/// The meaning of an error frame's cause code.
pub open spec fn spec_error_code_name(code: u8) -> &'static str {
    if code == 0x00 {
        "No error"
    } else if code == 0x01 {
        "Unknown function"
    } else if code == 0x02 {
        "Function not available"
    } else if code == 0x03 {
        "Invalid argument"
    } else if code == 0x04 {
        "Not supported"
    } else if code == 0x05 {
        "Invalid argument/Out of range"
    } else if code == 0x06 {
        "Device busy"
    } else if code == 0x07 {
        "Connection failed"
    } else if code == 0x08 {
        "Invalid address"
    } else {
        "Unknown error"
    }
}

/// The meaning of an error frame's cause code, for a log line.
pub fn error_code_name(code: u8) -> (name: &'static str)
    ensures
        name == spec_error_code_name(code),
{
    if code == 0x00 {
        "No error"
    } else if code == 0x01 {
        "Unknown function"
    } else if code == 0x02 {
        "Function not available"
    } else if code == 0x03 {
        "Invalid argument"
    } else if code == 0x04 {
        "Not supported"
    } else if code == 0x05 {
        "Invalid argument/Out of range"
    } else if code == 0x06 {
        "Device busy"
    } else if code == 0x07 {
        "Connection failed"
    } else if code == 0x08 {
        "Invalid address"
    } else {
        "Unknown error"
    }
}

impl HidppRequest {
    /// The request with the given payload, cut after three bytes and padded
    /// with zeros.
    pub open spec fn spec_new(feature_index: u8, function: u8, params: Seq<u8>) -> HidppRequest {
        HidppRequest {
            feature_index,
            function,
            params: [
                if params.len() > 0 {
                    params[0]
                } else {
                    0u8
                },
                if params.len() > 1 {
                    params[1]
                } else {
                    0u8
                },
                if params.len() > 2 {
                    params[2]
                } else {
                    0u8
                },
            ],
        }
    }

    /// The frame that carries the request to the device with the given index.
    pub open spec fn spec_frame(self, device_index: u8) -> [u8; 7] {
        [
            report_type::SHORT,
            device_index,
            self.feature_index,
            (self.function << 4) | (SOFTWARE_ID & 0x0F),
            self.params[0],
            self.params[1],
            self.params[2],
        ]
    }

    /// Creates a request. Payload bytes after the third are dropped; a shorter
    /// payload is padded with zeros.
    pub fn new(feature_index: u8, function: u8, params: &[u8]) -> (request: HidppRequest)
        ensures
            request == Self::spec_new(feature_index, function, params@),
    {
        let p0: u8 = if params.len() > 0 {
            params[0]
        } else {
            0
        };
        let p1: u8 = if params.len() > 1 {
            params[1]
        } else {
            0
        };
        let p2: u8 = if params.len() > 2 {
            params[2]
        } else {
            0
        };
        HidppRequest { feature_index, function, params: [p0, p1, p2] }
    }

    /// The frame that carries the request to the device with the given index.
    pub fn frame(&self, device_index: u8) -> (frame: [u8; 7])
        ensures
            frame == self.spec_frame(device_index),
    {
        let frame = encode_short(
            device_index,
            self.feature_index,
            self.function,
            SOFTWARE_ID,
            self.params.as_slice(),
        );
        frame
    }
}

/// The bytes of a reply, where there is one.
pub open spec fn reply_bytes(reply: Option<Vec<u8>>) -> Option<Seq<u8>> {
    match reply {
        Some(bytes) => Some(bytes@),
        None => None,
    }
}

impl ReadOutcome {
    /// Whether a read that drains the channel is to be followed by another:
    /// it is as long as bytes come.
    pub fn more_to_drain(&self) -> (more: bool)
        ensures
            more == (self is Data),
    {
        match self {
            ReadOutcome::Data(_) => true,
            _ => false,
        }
    }
}

impl ExchangeOutcome {
    /// The reply, where the exchange produced one.
    pub open spec fn spec_into_response(self) -> Option<Vec<u8>> {
        match self {
            ExchangeOutcome::Response(bytes) => Some(bytes),
            _ => None,
        }
    }

    /// Whether the exchange ended on a failed read or write.
    pub open spec fn spec_is_io_failure(&self) -> bool {
        self is WriteFailed || self is ReadFailed
    }

    /// The reply, where the exchange produced one. Every other ending is
    /// `None` to the caller: an error frame's cause code is not passed on.
    pub fn into_response(self) -> (reply: Option<Vec<u8>>)
        ensures
            reply == self.spec_into_response(),
    {
        match self {
            ExchangeOutcome::Response(bytes) => Some(bytes),
            _ => None,
        }
    }

    /// Whether the exchange ended on a failed read or write.
    #[verifier::when_used_as_spec(spec_is_io_failure)]
    pub fn is_io_failure(&self) -> (failed: bool)
        ensures
            failed == self.spec_is_io_failure(),
    {
        match self {
            ExchangeOutcome::WriteFailed => true,
            ExchangeOutcome::ReadFailed => true,
            _ => false,
        }
    }
}

impl Exchange {
    /// The exchange before its first channel operation.
    pub open spec fn spec_begin(device_index: u8, request: HidppRequest) -> Exchange {
        Self::spec_begin_with_rule(device_index, request, ReplyRule::Standard)
    }

    /// The exchange before its first channel operation, under a given rule
    /// for error frames.
    pub open spec fn spec_begin_with_rule(
        device_index: u8,
        request: HidppRequest,
        rule: ReplyRule,
    ) -> Exchange {
        Exchange { device_index, request, rule, attempts: 0, phase: ExchangePhase::Draining }
    }

    /// The channel operation that the exchange is waiting for.
    pub open spec fn spec_pending(self) -> ExchangeAction {
        match self.phase {
            ExchangePhase::Draining => ExchangeAction::Read { capacity: DRAIN_CAPACITY },
            ExchangePhase::Writing => ExchangeAction::Write(
                self.request.spec_frame(self.device_index),
            ),
            ExchangePhase::Polling => ExchangeAction::Read { capacity: REPLY_CAPACITY },
            ExchangePhase::Sleeping => ExchangeAction::Sleep(POLL_INTERVAL_MS),
            ExchangePhase::Finished => ExchangeAction::Idle,
        }
    }

    /// The exchange in another phase.
    pub open spec fn in_phase(self, phase: ExchangePhase) -> Exchange {
        Exchange { phase, ..self }
    }

    /// The exchange after a poll that brought no reply. Where this poll
    /// brings the number of unanswered polls to the attempt budget, the
    /// exchange ends with a timeout; otherwise the poll is counted and a
    /// pause follows.
    pub open spec fn spec_unanswered(self) -> (Exchange, ExchangeAction) {
        if self.attempts + 1 >= MAX_POLL_ATTEMPTS {
            (
                self.in_phase(ExchangePhase::Finished),
                ExchangeAction::Finish(ExchangeOutcome::Timeout),
            )
        } else {
            (
                Exchange {
                    attempts: (self.attempts + 1) as u32,
                    phase: ExchangePhase::Sleeping,
                    ..self
                },
                ExchangeAction::Sleep(POLL_INTERVAL_MS),
            )
        }
    }

    /// The exchange after a poll that read `bytes`.
    pub open spec fn spec_polled(self, bytes: Vec<u8>) -> (Exchange, ExchangeAction) {
        match spec_classify_reply(self.device_index, self.request, self.rule, bytes@) {
            ReplyVerdict::Matched => (
                self.in_phase(ExchangePhase::Finished),
                ExchangeAction::Finish(ExchangeOutcome::Response(bytes)),
            ),
            ReplyVerdict::DeviceError { code } => (
                self.in_phase(ExchangePhase::Finished),
                ExchangeAction::Finish(ExchangeOutcome::DeviceError { code }),
            ),
            ReplyVerdict::LegacyError => (
                self.in_phase(ExchangePhase::Finished),
                ExchangeAction::Finish(ExchangeOutcome::LegacyError),
            ),
            ReplyVerdict::Unrelated => self.spec_unanswered(),
        }
    }

    /// The transition function of the exchange: the state after `event` and
    /// the next channel operation.
    ///
    /// While draining, every read that brings bytes is followed by another;
    /// the first read that brings none, or fails, is followed by the write of
    /// the request. A failed write ends the exchange. While polling, a
    /// matching reply or an error frame ends the exchange, a failed read ends
    /// it, and everything else counts as an unanswered poll. An event that the
    /// current phase does not wait for changes nothing and is answered with
    /// the pending operation.
    pub open spec fn spec_step(self, event: ChannelEvent) -> (Exchange, ExchangeAction) {
        match (self.phase, event) {
            (ExchangePhase::Draining, ChannelEvent::Read(ReadOutcome::Data(_))) => (
                self,
                ExchangeAction::Read { capacity: DRAIN_CAPACITY },
            ),
            (ExchangePhase::Draining, ChannelEvent::Read(_)) => (
                self.in_phase(ExchangePhase::Writing),
                ExchangeAction::Write(self.request.spec_frame(self.device_index)),
            ),
            (ExchangePhase::Writing, ChannelEvent::Written(true)) => (
                self.in_phase(ExchangePhase::Polling),
                ExchangeAction::Read { capacity: REPLY_CAPACITY },
            ),
            (ExchangePhase::Writing, ChannelEvent::Written(false)) => (
                self.in_phase(ExchangePhase::Finished),
                ExchangeAction::Finish(ExchangeOutcome::WriteFailed),
            ),
            (ExchangePhase::Polling, ChannelEvent::Read(ReadOutcome::Data(bytes))) => {
                self.spec_polled(bytes)
            },
            (ExchangePhase::Polling, ChannelEvent::Read(ReadOutcome::WouldBlock)) => {
                self.spec_unanswered()
            },
            (ExchangePhase::Polling, ChannelEvent::Read(ReadOutcome::Failed)) => (
                self.in_phase(ExchangePhase::Finished),
                ExchangeAction::Finish(ExchangeOutcome::ReadFailed),
            ),
            (ExchangePhase::Sleeping, ChannelEvent::Slept) => (
                self.in_phase(ExchangePhase::Polling),
                ExchangeAction::Read { capacity: REPLY_CAPACITY },
            ),
            _ => (self, self.spec_pending()),
        }
    }

    /// Starts an exchange. Its first operation is [`Exchange::pending`].
    pub fn begin(device_index: u8, request: HidppRequest) -> (exchange: Exchange)
        ensures
            exchange == Self::spec_begin(device_index, request),
    {
        Self::begin_with_rule(device_index, request, ReplyRule::Standard)
    }

    /// Starts an exchange under a given rule for error frames.
    pub fn begin_with_rule(device_index: u8, request: HidppRequest, rule: ReplyRule) -> (exchange:
        Exchange)
        ensures
            exchange == Self::spec_begin_with_rule(device_index, request, rule),
    {
        Exchange { device_index, request, rule, attempts: 0, phase: ExchangePhase::Draining }
    }

    /// The channel operation that the exchange is waiting for.
    pub fn pending(&self) -> (action: ExchangeAction)
        ensures
            action == self.spec_pending(),
    {
        match self.phase {
            ExchangePhase::Draining => ExchangeAction::Read { capacity: DRAIN_CAPACITY },
            ExchangePhase::Writing => ExchangeAction::Write(
                self.request.frame(self.device_index),
            ),
            ExchangePhase::Polling => ExchangeAction::Read { capacity: REPLY_CAPACITY },
            ExchangePhase::Sleeping => ExchangeAction::Sleep(POLL_INTERVAL_MS),
            ExchangePhase::Finished => ExchangeAction::Idle,
        }
    }

    /// Whether the exchange is over.
    pub fn is_finished(&self) -> (finished: bool)
        ensures
            finished == (self.phase == ExchangePhase::Finished),
    {
        self.phase == ExchangePhase::Finished
    }

    fn unanswered(&mut self) -> (action: ExchangeAction)
        ensures
            (*final(self), action) == old(self).spec_unanswered(),
    {
        if self.attempts >= MAX_POLL_ATTEMPTS - 1 {
            self.phase = ExchangePhase::Finished;
            ExchangeAction::Finish(ExchangeOutcome::Timeout)
        } else {
            self.attempts = self.attempts + 1;
            self.phase = ExchangePhase::Sleeping;
            ExchangeAction::Sleep(POLL_INTERVAL_MS)
        }
    }

    /// Takes what the last channel operation produced and answers with the
    /// next one.
    pub fn step(&mut self, event: ChannelEvent) -> (action: ExchangeAction)
        ensures
            (*final(self), action) == old(self).spec_step(event),
    {
        match self.phase {
            ExchangePhase::Draining => match event {
                ChannelEvent::Read(ReadOutcome::Data(_)) => ExchangeAction::Read {
                    capacity: DRAIN_CAPACITY,
                },
                ChannelEvent::Read(_) => {
                    self.phase = ExchangePhase::Writing;
                    ExchangeAction::Write(self.request.frame(self.device_index))
                },
                _ => self.pending(),
            },
            ExchangePhase::Writing => match event {
                ChannelEvent::Written(true) => {
                    self.phase = ExchangePhase::Polling;
                    ExchangeAction::Read { capacity: REPLY_CAPACITY }
                },
                ChannelEvent::Written(false) => {
                    self.phase = ExchangePhase::Finished;
                    ExchangeAction::Finish(ExchangeOutcome::WriteFailed)
                },
                _ => self.pending(),
            },
            ExchangePhase::Polling => match event {
                ChannelEvent::Read(ReadOutcome::Data(bytes)) => {
                    let verdict = classify_reply(
                        self.device_index,
                        &self.request,
                        self.rule,
                        bytes.as_slice(),
                    );
                    match verdict {
                        ReplyVerdict::Matched => {
                            self.phase = ExchangePhase::Finished;
                            ExchangeAction::Finish(ExchangeOutcome::Response(bytes))
                        },
                        ReplyVerdict::DeviceError { code } => {
                            self.phase = ExchangePhase::Finished;
                            ExchangeAction::Finish(ExchangeOutcome::DeviceError { code })
                        },
                        ReplyVerdict::LegacyError => {
                            self.phase = ExchangePhase::Finished;
                            ExchangeAction::Finish(ExchangeOutcome::LegacyError)
                        },
                        ReplyVerdict::Unrelated => self.unanswered(),
                    }
                },
                ChannelEvent::Read(ReadOutcome::WouldBlock) => self.unanswered(),
                ChannelEvent::Read(ReadOutcome::Failed) => {
                    self.phase = ExchangePhase::Finished;
                    ExchangeAction::Finish(ExchangeOutcome::ReadFailed)
                },
                _ => self.pending(),
            },
            ExchangePhase::Sleeping => match event {
                ChannelEvent::Slept => {
                    self.phase = ExchangePhase::Polling;
                    ExchangeAction::Read { capacity: REPLY_CAPACITY }
                },
                _ => self.pending(),
            },
            ExchangePhase::Finished => ExchangeAction::Idle,
        }
    }
}

/// A reply that an exchange hands out answers the request: it has at least
/// seven bytes, starts with a HID++ report type, and carries the request's
/// device index, feature index, function and request tag.
pub proof fn lemma_response_answers_request(exchange: Exchange, event: ChannelEvent)
    ensures
        exchange.spec_step(event).1 matches ExchangeAction::Finish(
            ExchangeOutcome::Response(bytes),
        ) ==> {
            &&& exchange.phase == ExchangePhase::Polling
            &&& event == ChannelEvent::Read(ReadOutcome::Data(bytes))
            &&& bytes@.len() >= 7
            &&& (bytes@[0] == report_type::SHORT || bytes@[0] == report_type::LONG)
            &&& bytes@[1] == exchange.device_index
            &&& bytes@[2] == exchange.request.feature_index
            &&& unpack_function(bytes@[3]) == exchange.request.function
            &&& unpack_sw(bytes@[3]) == SOFTWARE_ID
        },
{
}

/// The attempt budget bounds an exchange: a poll that does not end the
/// exchange is counted and followed by a pause, and the poll that would
/// bring the count to the budget ends the exchange whatever it reads. From
/// its start an exchange therefore polls at most 100 times and pauses at most
/// 99 times.
pub proof fn lemma_poll_budget(exchange: Exchange, outcome: ReadOutcome)
    requires
        exchange.phase == ExchangePhase::Polling,
    ensures
        ({
            let (next, action) = exchange.spec_step(ChannelEvent::Read(outcome));
            &&& action is Finish || action == ExchangeAction::Sleep(POLL_INTERVAL_MS)
            &&& action is Finish <==> next.phase == ExchangePhase::Finished
            &&& !(action is Finish) ==> {
                &&& next.phase == ExchangePhase::Sleeping
                &&& next.attempts == exchange.attempts + 1
                &&& next.attempts < MAX_POLL_ATTEMPTS
            }
            &&& exchange.attempts + 1 >= MAX_POLL_ATTEMPTS ==> action is Finish
        }),
{
}

/// Where polling leads, given what each poll reads: the exchange after the
/// polls and the pauses between them, and how it ended if it ended.
pub open spec fn spec_poll(exchange: Exchange, reads: Seq<ReadOutcome>) -> (
    Exchange,
    Option<ExchangeOutcome>,
)
    decreases reads.len(),
{
    if reads.len() == 0 {
        (exchange, None)
    } else {
        let (polled, action) = exchange.spec_step(ChannelEvent::Read(reads[0]));
        match action {
            ExchangeAction::Finish(outcome) => (polled, Some(outcome)),
            _ => spec_poll(polled.spec_step(ChannelEvent::Slept).0, reads.drop_first()),
        }
    }
}

/// Polling ends within the attempt budget: an exchange that has `attempts`
/// unanswered polls behind it is over after `MAX_POLL_ATTEMPTS - attempts`
/// further polls at the latest, whatever they read, and it ends in a timeout
/// where none of them reads anything. From its start an exchange is over
/// after 100 polls.
pub proof fn lemma_polling_ends(exchange: Exchange, reads: Seq<ReadOutcome>)
    requires
        exchange.phase == ExchangePhase::Polling,
        reads.len() >= 1,
        reads.len() >= MAX_POLL_ATTEMPTS - exchange.attempts,
    ensures
        spec_poll(exchange, reads).1 is Some,
        (forall|i: int| 0 <= i < reads.len() ==> #[trigger] reads[i] is WouldBlock) ==> spec_poll(
            exchange,
            reads,
        ).1 == Some(ExchangeOutcome::Timeout),
    decreases reads.len(),
{
    let (polled, action) = exchange.spec_step(ChannelEvent::Read(reads[0]));
    lemma_poll_budget(exchange, reads[0]);
    if !(action is Finish) {
        let resumed = polled.spec_step(ChannelEvent::Slept).0;
        lemma_polling_ends(resumed, reads.drop_first());
    }
}

/// A request with a function identifier of more than four bits is never
/// answered: no frame matches it.
pub proof fn lemma_wide_function_never_matches(
    device_index: u8,
    request: HidppRequest,
    frame: Seq<u8>,
)
    requires
        request.function >= 16,
    ensures
        forall|rule: ReplyRule| #[trigger]
            spec_classify_reply(device_index, request, rule, frame) != ReplyVerdict::Matched,
{
    if frame.len() >= 7 {
        lemma_unpack_bounds(frame[3]);
    }
}

} // verus!
