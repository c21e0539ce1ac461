//! Opening a session: protocol validation and feature discovery.
//!
//! Opening is a short dialogue with the device. The dialogue is laid down
//! here as a state machine: [`SessionSetup::next_request`] names the request
//! to exchange next, and [`SessionSetup::on_reply`] takes the reply of that
//! exchange. The caller runs the exchanges.

use vstd::prelude::*;
use crate::hidpp::device::{
    feature_count,
    feature_count_request,
    feature_id,
    feature_id_request,
    feature_index_request,
    get_feature_index,
    lemma_record_feature_keeps_wf,
    ping_request,
    spec_feature_count,
    spec_feature_count_request,
    spec_feature_id,
    spec_feature_id_request,
    spec_feature_index_request,
    spec_get_feature_index,
    spec_ping_request,
    spec_validate_hidpp20,
    validate_hidpp20,
    DeviceModel,
    HidppDevice,
};
use crate::hidpp::blocklisted_features::spec_is_blocklisted;
use crate::hidpp::discovery::ConnectionType;
use crate::hidpp::exchange::{reply_bytes, HidppRequest};
use crate::hidpp::features;

verus! {

/// Where the opening of a session stands.
#[derive(Debug, Clone, Copy, PartialEq, Eq, Structural)]
pub enum SetupStage {
    /// The ping that validates the protocol version is due.
    Validating,
    /// The table index of the feature set is being resolved.
    ResolvingFeatureSet,
    /// The number of features is being read.
    CountingFeatures { feature_set_index: u8 },
    /// The feature at `position` is being read; `count` features are to be
    /// read in all.
    ReadingFeature { feature_set_index: u8, count: u8, position: u8 },
    /// The session is open.
    Ready,
    /// The device does not speak the protocol.
    Rejected,
}

/// The opening of a session, as far as it has come.
pub struct SetupModel {
    /// What is known of the device so far.
    pub device: DeviceModel,
    /// Where the opening stands.
    pub stage: SetupStage,
}

impl SetupModel {
    /// The invariant of an opening: the device's, and a position that is
    /// being read lies within the count.
    pub open spec fn wf(self) -> bool {
        &&& self.device.wf()
        &&& self.stage matches SetupStage::ReadingFeature { count, position, .. } ==> position
            < count
    }

    /// The opening before its first request.
    pub open spec fn begin(connection_type: ConnectionType) -> SetupModel {
        SetupModel { device: DeviceModel::fresh(connection_type), stage: SetupStage::Validating }
    }

    /// The request that is due; `None` once the opening is over.
    pub open spec fn next_request(self) -> Option<HidppRequest> {
        match self.stage {
            SetupStage::Validating => Some(spec_ping_request()),
            SetupStage::ResolvingFeatureSet => Some(
                spec_feature_index_request(features::I_FEATURE_SET).unwrap(),
            ),
            SetupStage::CountingFeatures { feature_set_index } => Some(
                spec_feature_count_request(feature_set_index),
            ),
            SetupStage::ReadingFeature { feature_set_index, position, .. } => Some(
                spec_feature_id_request(feature_set_index, position),
            ),
            SetupStage::Ready => None,
            SetupStage::Rejected => None,
        }
    }

    /// The opening after the reply to the request that was due.
    ///
    /// A ping that is not echoed rejects the device. A device without the
    /// feature set, or one that does not tell its number of features, is open
    /// with an empty feature table. Otherwise each table position is read in
    /// turn; a position whose reply is missing or too short is skipped, and
    /// every other one is recorded.
    pub open spec fn on_reply(self, reply: Option<Seq<u8>>) -> SetupModel {
        match self.stage {
            SetupStage::Validating => SetupModel {
                stage: if spec_validate_hidpp20(reply) {
                    SetupStage::ResolvingFeatureSet
                } else {
                    SetupStage::Rejected
                },
                ..self
            },
            SetupStage::ResolvingFeatureSet => SetupModel {
                stage: match spec_get_feature_index(reply) {
                    Some(feature_set_index) => SetupStage::CountingFeatures { feature_set_index },
                    None => SetupStage::Ready,
                },
                ..self
            },
            SetupStage::CountingFeatures { feature_set_index } => SetupModel {
                stage: match spec_feature_count(reply) {
                    Some(count) => if count > 0 {
                        SetupStage::ReadingFeature { feature_set_index, count, position: 0 }
                    } else {
                        SetupStage::Ready
                    },
                    None => SetupStage::Ready,
                },
                ..self
            },
            SetupStage::ReadingFeature { feature_set_index, count, position } => SetupModel {
                device: match spec_feature_id(reply) {
                    Some(feature_id) => self.device.record_feature(position, feature_id),
                    None => self.device,
                },
                stage: if position + 1 < count {
                    SetupStage::ReadingFeature {
                        feature_set_index,
                        count,
                        position: (position + 1) as u8,
                    }
                } else {
                    SetupStage::Ready
                },
            },
            SetupStage::Ready => self,
            SetupStage::Rejected => self,
        }
    }

    /// The largest number of requests that the opening may still make.
    pub open spec fn requests_left(self) -> nat {
        match self.stage {
            SetupStage::Validating => 258,
            SetupStage::ResolvingFeatureSet => 257,
            SetupStage::CountingFeatures { .. } => 256,
            SetupStage::ReadingFeature { count, position, .. } => (count - position) as nat,
            SetupStage::Ready => 0,
            SetupStage::Rejected => 0,
        }
    }
}

/// Every reply keeps the invariant of an opening. In particular no forbidden
/// feature enters the feature table, whatever the device replies.
pub proof fn lemma_on_reply_keeps_wf(setup: SetupModel, reply: Option<Seq<u8>>)
    requires
        setup.wf(),
    ensures
        setup.on_reply(reply).wf(),
{
    match setup.stage {
        SetupStage::ReadingFeature { position, .. } => {
            match spec_feature_id(reply) {
                Some(feature_id) => {
                    lemma_record_feature_keeps_wf(setup.device, position, feature_id);
                },
                None => {},
            }
        },
        _ => {},
    }
}

/// An opening ends: it has a request due exactly while requests are left, and
/// every reply leaves fewer. From its begin an opening makes at most 258
/// requests.
pub proof fn lemma_opening_ends(setup: SetupModel, reply: Option<Seq<u8>>)
    requires
        setup.wf(),
    ensures
        setup.next_request() is Some <==> setup.requests_left() > 0,
        setup.next_request() is Some ==> setup.on_reply(reply).requests_left()
            < setup.requests_left(),
        setup.next_request() is None ==> setup.on_reply(reply) == setup,
{
}

/// The opening after a sequence of replies, each taken as the reply to the
/// request that was due.
pub open spec fn spec_run(setup: SetupModel, replies: Seq<Option<Seq<u8>>>) -> SetupModel
    decreases replies.len(),
{
    if replies.len() == 0 {
        setup
    } else {
        spec_run(setup.on_reply(replies[0]), replies.drop_first())
    }
}

/// Whatever a device replies, and however often, the opening keeps its
/// invariant and uses up its requests.
pub proof fn lemma_run_keeps_wf(setup: SetupModel, replies: Seq<Option<Seq<u8>>>)
    requires
        setup.wf(),
    ensures
        spec_run(setup, replies).wf(),
        spec_run(setup, replies).requests_left() + replies.len() <= setup.requests_left()
            || spec_run(setup, replies).requests_left() == 0,
    decreases replies.len(),
{
    if replies.len() > 0 {
        lemma_on_reply_keeps_wf(setup, replies[0]);
        lemma_opening_ends(setup, replies[0]);
        lemma_run_keeps_wf(setup.on_reply(replies[0]), replies.drop_first());
    }
}

/// No dialogue with a device, whatever the device replies, brings a
/// forbidden feature into the feature table, and every dialogue is over
/// after 258 replies.
pub proof fn lemma_no_dialogue_admits_a_forbidden_feature(
    connection_type: ConnectionType,
    replies: Seq<Option<Seq<u8>>>,
    feature_id: u16,
)
    ensures
        spec_run(SetupModel::begin(connection_type), replies).device.features.contains_key(
            feature_id,
        ) ==> !spec_is_blocklisted(feature_id),
        replies.len() >= 258 ==> spec_run(
            SetupModel::begin(connection_type),
            replies,
        ).next_request() is None,
{
    let begin = SetupModel::begin(connection_type);
    lemma_run_keeps_wf(begin, replies);
    lemma_opening_ends(spec_run(begin, replies), None);
}

impl HidppDevice {
    /// Begins to open a session with the device that discovery chose. The
    /// session is open once the opening has validated the protocol version
    /// and read the feature table; a device that does not answer the ping
    /// gives no session, which is an expected outcome and no error.
    pub fn open(connection_type: ConnectionType) -> (setup: SessionSetup)
        ensures
            setup@ == SetupModel::begin(connection_type),
    {
        SessionSetup::begin(connection_type)
    }
}

/// The opening of one session.
pub struct SessionSetup {
    device: HidppDevice,
    stage: SetupStage,
}

impl View for SessionSetup {
    type V = SetupModel;

    closed spec fn view(&self) -> SetupModel {
        SetupModel { device: self.device@, stage: self.stage }
    }
}

impl SessionSetup {
    /// Every opening meets the invariant of its model.
    #[verifier::type_invariant]
    pub open spec fn inv(&self) -> bool {
        self@.wf()
    }

    /// Begins to open a session with a device on the given kind of
    /// connection.
    pub fn begin(connection_type: ConnectionType) -> (setup: SessionSetup)
        ensures
            setup@ == SetupModel::begin(connection_type),
    {
        SessionSetup { device: HidppDevice::new(connection_type), stage: SetupStage::Validating }
    }

    /// The device index to stamp on the requests.
    pub fn device_index(&self) -> (index: u8)
        ensures
            index == self@.device.device_index,
    {
        self.device.device_index()
    }

    /// Where the opening stands.
    pub fn stage(&self) -> (stage: SetupStage)
        ensures
            stage == self@.stage,
    {
        self.stage
    }

    /// The request to exchange next; `None` once the opening is over.
    pub fn next_request(&self) -> (request: Option<HidppRequest>)
        ensures
            request == self@.next_request(),
    {
        match self.stage {
            SetupStage::Validating => Some(ping_request()),
            SetupStage::ResolvingFeatureSet => {
                match feature_index_request(features::I_FEATURE_SET) {
                    Ok(request) => Some(request),
                    Err(_) => None,
                }
            },
            SetupStage::CountingFeatures { feature_set_index } => Some(
                feature_count_request(feature_set_index),
            ),
            SetupStage::ReadingFeature { feature_set_index, position, .. } => Some(
                feature_id_request(feature_set_index, position),
            ),
            SetupStage::Ready => None,
            SetupStage::Rejected => None,
        }
    }

    /// Takes the reply to the request that was due: the bytes of the reply,
    /// or `None` where the exchange brought none.
    pub fn on_reply(self, reply: Option<Vec<u8>>) -> (next: SessionSetup)
        ensures
            next@ == self@.on_reply(reply_bytes(reply)),
    {
        proof {
            use_type_invariant(&self);
            lemma_on_reply_keeps_wf(self@, reply_bytes(reply));
        }
        let SessionSetup { device, stage } = self;
        let mut device = device;
        match stage {
            SetupStage::Validating => {
                let next_stage = if validate_hidpp20(&reply) {
                    SetupStage::ResolvingFeatureSet
                } else {
                    SetupStage::Rejected
                };
                SessionSetup { device, stage: next_stage }
            },
            SetupStage::ResolvingFeatureSet => {
                let next_stage = match get_feature_index(&reply) {
                    Some(feature_set_index) => SetupStage::CountingFeatures { feature_set_index },
                    None => SetupStage::Ready,
                };
                SessionSetup { device, stage: next_stage }
            },
            SetupStage::CountingFeatures { feature_set_index } => {
                let next_stage = match feature_count(&reply) {
                    Some(count) => {
                        if count > 0 {
                            SetupStage::ReadingFeature { feature_set_index, count, position: 0 }
                        } else {
                            SetupStage::Ready
                        }
                    },
                    None => SetupStage::Ready,
                };
                SessionSetup { device, stage: next_stage }
            },
            SetupStage::ReadingFeature { feature_set_index, count, position } => {
                match feature_id(&reply) {
                    Some(id) => {
                        let _ = device.record_feature(position, id);
                    },
                    None => {},
                }
                let next_stage = if position + 1 < count {
                    SetupStage::ReadingFeature { feature_set_index, count, position: position + 1 }
                } else {
                    SetupStage::Ready
                };
                SessionSetup { device, stage: next_stage }
            },
            SetupStage::Ready => SessionSetup { device, stage },
            SetupStage::Rejected => SessionSetup { device, stage },
        }
    }

    /// Whether the opening is over.
    pub fn is_done(&self) -> (done: bool)
        ensures
            done == (self@.next_request() is None),
    {
        match self.stage {
            SetupStage::Ready => true,
            SetupStage::Rejected => true,
            _ => false,
        }
    }

    /// The open session; `None` where the device was rejected or the opening
    /// is not over.
    pub fn finish(self) -> (device: Option<HidppDevice>)
        ensures
            device is Some <==> self@.stage == SetupStage::Ready,
            device matches Some(d) ==> d@ == self@.device,
    {
        match self.stage {
            SetupStage::Ready => Some(self.device),
            _ => None,
        }
    }
}

} // verus!
