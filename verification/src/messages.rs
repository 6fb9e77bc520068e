//! Typed in- and out-messages of the bridge protocol.
//!
//! Each variant's ordinal is fixed by its declaration order; renumbering is
//! a breaking wire change. Textual fields (key expressions, parameters,
//! schemas, error text) travel as length-prefixed byte strings and are held
//! here as plain byte vectors.
//!
//! Every type has a deep view (`…V`) over `Seq<u8>` so that the codec's
//! specification can speak about message values exactly.

use vstd::prelude::*;

use crate::qos::{Locality, Qos, QuerySettings, ReplyKeyExpr};

verus! {

/// Payload encoding: a numeric id and an optional schema string
/// (empty schema means none).
#[derive(Clone, PartialEq, Eq, Debug)]
pub struct EncodingInfo {
    pub id: u16,
    pub schema: Vec<u8>,
}

pub struct EncodingInfoV {
    pub id: u16,
    pub schema: Seq<u8>,
}

impl View for EncodingInfo {
    type V = EncodingInfoV;

    open spec fn view(&self) -> EncodingInfoV {
        EncodingInfoV { id: self.id, schema: self.schema@ }
    }
}

impl EncodingInfoV {
    pub open spec fn wf(self) -> bool {
        self.schema.len() <= u64::MAX
    }
}

/// A fabric timestamp: 64-bit NTP time plus the 16-byte id of its source.
#[derive(Clone, PartialEq, Eq, Debug)]
pub struct TimestampInfo {
    pub ntp64: u64,
    pub id: Vec<u8>,
}

pub struct TimestampInfoV {
    pub ntp64: u64,
    pub id: Seq<u8>,
}

impl View for TimestampInfo {
    type V = TimestampInfoV;

    open spec fn view(&self) -> TimestampInfoV {
        TimestampInfoV { ntp64: self.ntp64, id: self.id@ }
    }
}

impl TimestampInfoV {
    pub open spec fn wf(self) -> bool {
        self.id.len() == 16
    }
}

#[derive(Clone, Copy, PartialEq, Eq, Structural, Debug)]
pub enum SampleKind {
    Put,
    Delete,
}

/// A data sample as delivered to a subscriber.
#[derive(Clone, PartialEq, Eq, Debug)]
pub struct SampleInfo {
    pub keyexpr: Vec<u8>,
    pub payload: Vec<u8>,
    pub kind: SampleKind,
    pub encoding: EncodingInfo,
    pub attachment: Option<Vec<u8>>,
    pub timestamp: Option<TimestampInfo>,
    pub qos: Qos,
}

pub struct SampleInfoV {
    pub keyexpr: Seq<u8>,
    pub payload: Seq<u8>,
    pub kind: SampleKind,
    pub encoding: EncodingInfoV,
    pub attachment: Option<Seq<u8>>,
    pub timestamp: Option<TimestampInfoV>,
    pub qos: Qos,
}

pub open spec fn opt_bytes_view(o: Option<Vec<u8>>) -> Option<Seq<u8>> {
    match o {
        Option::Some(b) => Some(b@),
        Option::None => None,
    }
}

pub open spec fn opt_enc_view(o: Option<EncodingInfo>) -> Option<EncodingInfoV> {
    match o {
        Option::Some(e) => Some(e@),
        Option::None => None,
    }
}

pub open spec fn opt_ts_view(o: Option<TimestampInfo>) -> Option<TimestampInfoV> {
    match o {
        Option::Some(t) => Some(t@),
        Option::None => None,
    }
}

pub open spec fn opt_bytes_wf(o: Option<Seq<u8>>) -> bool {
    match o {
        Option::Some(b) => b.len() <= u64::MAX,
        Option::None => true,
    }
}

pub open spec fn opt_enc_wf(o: Option<EncodingInfoV>) -> bool {
    match o {
        Option::Some(e) => e.wf(),
        Option::None => true,
    }
}

pub open spec fn opt_ts_wf(o: Option<TimestampInfoV>) -> bool {
    match o {
        Option::Some(t) => t.wf(),
        Option::None => true,
    }
}

impl View for SampleInfo {
    type V = SampleInfoV;

    open spec fn view(&self) -> SampleInfoV {
        SampleInfoV {
            keyexpr: self.keyexpr@,
            payload: self.payload@,
            kind: self.kind,
            encoding: self.encoding@,
            attachment: opt_bytes_view(self.attachment),
            timestamp: opt_ts_view(self.timestamp),
            qos: self.qos,
        }
    }
}

impl SampleInfoV {
    pub open spec fn wf(self) -> bool {
        self.keyexpr.len() <= u64::MAX && self.payload.len() <= u64::MAX && self.encoding.wf()
            && opt_bytes_wf(self.attachment) && opt_ts_wf(self.timestamp)
    }
}

/// A query as delivered to a queryable.
#[derive(Clone, PartialEq, Eq, Debug)]
pub struct QueryInfo {
    pub keyexpr: Vec<u8>,
    pub parameters: Vec<u8>,
    pub payload: Option<Vec<u8>>,
    pub encoding: Option<EncodingInfo>,
    pub attachment: Option<Vec<u8>>,
    pub reply_keyexpr: ReplyKeyExpr,
}

pub struct QueryInfoV {
    pub keyexpr: Seq<u8>,
    pub parameters: Seq<u8>,
    pub payload: Option<Seq<u8>>,
    pub encoding: Option<EncodingInfoV>,
    pub attachment: Option<Seq<u8>>,
    pub reply_keyexpr: ReplyKeyExpr,
}

impl View for QueryInfo {
    type V = QueryInfoV;

    open spec fn view(&self) -> QueryInfoV {
        QueryInfoV {
            keyexpr: self.keyexpr@,
            parameters: self.parameters@,
            payload: opt_bytes_view(self.payload),
            encoding: opt_enc_view(self.encoding),
            attachment: opt_bytes_view(self.attachment),
            reply_keyexpr: self.reply_keyexpr,
        }
    }
}

impl QueryInfoV {
    pub open spec fn wf(self) -> bool {
        self.keyexpr.len() <= u64::MAX && self.parameters.len() <= u64::MAX && opt_bytes_wf(
            self.payload,
        ) && opt_enc_wf(self.encoding) && opt_bytes_wf(self.attachment)
    }
}

/// The outcome a queried node sent back: a sample, or an error payload.
#[derive(Clone, PartialEq, Eq, Debug)]
pub enum ReplyInfo {
    Value(SampleInfo),
    Failure { payload: Vec<u8>, encoding: EncodingInfo },
}

pub enum ReplyInfoV {
    Value(SampleInfoV),
    Failure { payload: Seq<u8>, encoding: EncodingInfoV },
}

impl View for ReplyInfo {
    type V = ReplyInfoV;

    open spec fn view(&self) -> ReplyInfoV {
        match self {
            ReplyInfo::Value(s) => ReplyInfoV::Value(s@),
            ReplyInfo::Failure { payload, encoding } => ReplyInfoV::Failure {
                payload: payload@,
                encoding: encoding@,
            },
        }
    }
}

impl ReplyInfoV {
    pub open spec fn wf(self) -> bool {
        match self {
            ReplyInfoV::Value(s) => s.wf(),
            ReplyInfoV::Failure { payload, encoding } => payload.len() <= u64::MAX
                && encoding.wf(),
        }
    }
}

/// Commands a client sends to the bridge. The wire tag of each variant is
/// its position in this declaration.
#[derive(Clone, PartialEq, Eq, Debug)]
pub enum InRemoteMessage {
    DeclarePublisher { id: u32, keyexpr: Vec<u8>, encoding: EncodingInfo, qos: Qos },
    UndeclarePublisher { id: u32 },
    DeclareSubscriber { id: u32, keyexpr: Vec<u8>, allowed_origin: Locality },
    UndeclareSubscriber { id: u32 },
    DeclareQueryable { id: u32, keyexpr: Vec<u8>, complete: bool, allowed_origin: Locality },
    UndeclareQueryable { id: u32 },
    DeclareQuerier {
        id: u32,
        keyexpr: Vec<u8>,
        qos: Qos,
        query_settings: QuerySettings,
        timeout_ms: u32,
    },
    UndeclareQuerier { id: u32 },
    DeclareLivelinessToken { id: u32, keyexpr: Vec<u8> },
    UndeclareLivelinessToken { id: u32 },
    DeclareLivelinessSubscriber { id: u32, keyexpr: Vec<u8>, history: bool },
    UndeclareLivelinessSubscriber { id: u32 },
    GetSessionInfo,
    GetTimestamp,
    Put {
        keyexpr: Vec<u8>,
        payload: Vec<u8>,
        encoding: EncodingInfo,
        attachment: Option<Vec<u8>>,
        timestamp: Option<TimestampInfo>,
        qos: Qos,
    },
    Delete {
        keyexpr: Vec<u8>,
        attachment: Option<Vec<u8>>,
        timestamp: Option<TimestampInfo>,
        qos: Qos,
    },
    PublisherPut {
        publisher_id: u32,
        payload: Vec<u8>,
        encoding: Option<EncodingInfo>,
        attachment: Option<Vec<u8>>,
        timestamp: Option<TimestampInfo>,
    },
    PublisherDelete {
        publisher_id: u32,
        attachment: Option<Vec<u8>>,
        timestamp: Option<TimestampInfo>,
    },
    Get {
        id: u32,
        keyexpr: Vec<u8>,
        parameters: Vec<u8>,
        payload: Option<Vec<u8>>,
        encoding: Option<EncodingInfo>,
        attachment: Option<Vec<u8>>,
        qos: Qos,
        query_settings: QuerySettings,
        timeout_ms: u32,
    },
    QuerierGet {
        id: u32,
        querier_id: u32,
        parameters: Vec<u8>,
        payload: Option<Vec<u8>>,
        encoding: Option<EncodingInfo>,
        attachment: Option<Vec<u8>>,
    },
    LivelinessGet { id: u32, keyexpr: Vec<u8>, timeout_ms: u32 },
    ReplyOk {
        query_id: u32,
        keyexpr: Vec<u8>,
        payload: Vec<u8>,
        encoding: EncodingInfo,
        attachment: Option<Vec<u8>>,
        timestamp: Option<TimestampInfo>,
        qos: Qos,
    },
    ReplyDel {
        query_id: u32,
        keyexpr: Vec<u8>,
        attachment: Option<Vec<u8>>,
        timestamp: Option<TimestampInfo>,
        qos: Qos,
    },
    ReplyErr { query_id: u32, payload: Vec<u8>, encoding: EncodingInfo },
    QueryResponseFinal { query_id: u32 },
    Ping,
    PublisherDeclareMatchingListener { id: u32, publisher_id: u32 },
    UndeclareMatchingListener { id: u32 },
    PublisherGetMatchingStatus { publisher_id: u32 },
    QuerierDeclareMatchingListener { id: u32, querier_id: u32 },
    QuerierGetMatchingStatus { querier_id: u32 },
}

pub enum InRemoteMessageV {
    DeclarePublisher { id: u32, keyexpr: Seq<u8>, encoding: EncodingInfoV, qos: Qos },
    UndeclarePublisher { id: u32 },
    DeclareSubscriber { id: u32, keyexpr: Seq<u8>, allowed_origin: Locality },
    UndeclareSubscriber { id: u32 },
    DeclareQueryable { id: u32, keyexpr: Seq<u8>, complete: bool, allowed_origin: Locality },
    UndeclareQueryable { id: u32 },
    DeclareQuerier {
        id: u32,
        keyexpr: Seq<u8>,
        qos: Qos,
        query_settings: QuerySettings,
        timeout_ms: u32,
    },
    UndeclareQuerier { id: u32 },
    DeclareLivelinessToken { id: u32, keyexpr: Seq<u8> },
    UndeclareLivelinessToken { id: u32 },
    DeclareLivelinessSubscriber { id: u32, keyexpr: Seq<u8>, history: bool },
    UndeclareLivelinessSubscriber { id: u32 },
    GetSessionInfo,
    GetTimestamp,
    Put {
        keyexpr: Seq<u8>,
        payload: Seq<u8>,
        encoding: EncodingInfoV,
        attachment: Option<Seq<u8>>,
        timestamp: Option<TimestampInfoV>,
        qos: Qos,
    },
    Delete {
        keyexpr: Seq<u8>,
        attachment: Option<Seq<u8>>,
        timestamp: Option<TimestampInfoV>,
        qos: Qos,
    },
    PublisherPut {
        publisher_id: u32,
        payload: Seq<u8>,
        encoding: Option<EncodingInfoV>,
        attachment: Option<Seq<u8>>,
        timestamp: Option<TimestampInfoV>,
    },
    PublisherDelete {
        publisher_id: u32,
        attachment: Option<Seq<u8>>,
        timestamp: Option<TimestampInfoV>,
    },
    Get {
        id: u32,
        keyexpr: Seq<u8>,
        parameters: Seq<u8>,
        payload: Option<Seq<u8>>,
        encoding: Option<EncodingInfoV>,
        attachment: Option<Seq<u8>>,
        qos: Qos,
        query_settings: QuerySettings,
        timeout_ms: u32,
    },
    QuerierGet {
        id: u32,
        querier_id: u32,
        parameters: Seq<u8>,
        payload: Option<Seq<u8>>,
        encoding: Option<EncodingInfoV>,
        attachment: Option<Seq<u8>>,
    },
    LivelinessGet { id: u32, keyexpr: Seq<u8>, timeout_ms: u32 },
    ReplyOk {
        query_id: u32,
        keyexpr: Seq<u8>,
        payload: Seq<u8>,
        encoding: EncodingInfoV,
        attachment: Option<Seq<u8>>,
        timestamp: Option<TimestampInfoV>,
        qos: Qos,
    },
    ReplyDel {
        query_id: u32,
        keyexpr: Seq<u8>,
        attachment: Option<Seq<u8>>,
        timestamp: Option<TimestampInfoV>,
        qos: Qos,
    },
    ReplyErr { query_id: u32, payload: Seq<u8>, encoding: EncodingInfoV },
    QueryResponseFinal { query_id: u32 },
    Ping,
    PublisherDeclareMatchingListener { id: u32, publisher_id: u32 },
    UndeclareMatchingListener { id: u32 },
    PublisherGetMatchingStatus { publisher_id: u32 },
    QuerierDeclareMatchingListener { id: u32, querier_id: u32 },
    QuerierGetMatchingStatus { querier_id: u32 },
}

impl View for InRemoteMessage {
    type V = InRemoteMessageV;

    open spec fn view(&self) -> InRemoteMessageV {
        match self {
            InRemoteMessage::DeclarePublisher { id, keyexpr, encoding, qos } => {
                InRemoteMessageV::DeclarePublisher {
                    id: *id,
                    keyexpr: keyexpr@,
                    encoding: encoding@,
                    qos: *qos,
                }
            },
            InRemoteMessage::UndeclarePublisher { id } => {
                InRemoteMessageV::UndeclarePublisher { id: *id }
            },
            InRemoteMessage::DeclareSubscriber { id, keyexpr, allowed_origin } => {
                InRemoteMessageV::DeclareSubscriber {
                    id: *id,
                    keyexpr: keyexpr@,
                    allowed_origin: *allowed_origin,
                }
            },
            InRemoteMessage::UndeclareSubscriber { id } => {
                InRemoteMessageV::UndeclareSubscriber { id: *id }
            },
            InRemoteMessage::DeclareQueryable { id, keyexpr, complete, allowed_origin } => {
                InRemoteMessageV::DeclareQueryable {
                    id: *id,
                    keyexpr: keyexpr@,
                    complete: *complete,
                    allowed_origin: *allowed_origin,
                }
            },
            InRemoteMessage::UndeclareQueryable { id } => {
                InRemoteMessageV::UndeclareQueryable { id: *id }
            },
            InRemoteMessage::DeclareQuerier { id, keyexpr, qos, query_settings, timeout_ms } => {
                InRemoteMessageV::DeclareQuerier {
                    id: *id,
                    keyexpr: keyexpr@,
                    qos: *qos,
                    query_settings: *query_settings,
                    timeout_ms: *timeout_ms,
                }
            },
            InRemoteMessage::UndeclareQuerier { id } => {
                InRemoteMessageV::UndeclareQuerier { id: *id }
            },
            InRemoteMessage::DeclareLivelinessToken { id, keyexpr } => {
                InRemoteMessageV::DeclareLivelinessToken { id: *id, keyexpr: keyexpr@ }
            },
            InRemoteMessage::UndeclareLivelinessToken { id } => {
                InRemoteMessageV::UndeclareLivelinessToken { id: *id }
            },
            InRemoteMessage::DeclareLivelinessSubscriber { id, keyexpr, history } => {
                InRemoteMessageV::DeclareLivelinessSubscriber {
                    id: *id,
                    keyexpr: keyexpr@,
                    history: *history,
                }
            },
            InRemoteMessage::UndeclareLivelinessSubscriber { id } => {
                InRemoteMessageV::UndeclareLivelinessSubscriber { id: *id }
            },
            InRemoteMessage::GetSessionInfo => InRemoteMessageV::GetSessionInfo,
            InRemoteMessage::GetTimestamp => InRemoteMessageV::GetTimestamp,
            InRemoteMessage::Put { keyexpr, payload, encoding, attachment, timestamp, qos } => {
                InRemoteMessageV::Put {
                    keyexpr: keyexpr@,
                    payload: payload@,
                    encoding: encoding@,
                    attachment: opt_bytes_view(*attachment),
                    timestamp: opt_ts_view(*timestamp),
                    qos: *qos,
                }
            },
            InRemoteMessage::Delete { keyexpr, attachment, timestamp, qos } => {
                InRemoteMessageV::Delete {
                    keyexpr: keyexpr@,
                    attachment: opt_bytes_view(*attachment),
                    timestamp: opt_ts_view(*timestamp),
                    qos: *qos,
                }
            },
            InRemoteMessage::PublisherPut {
                publisher_id,
                payload,
                encoding,
                attachment,
                timestamp,
            } => {
                InRemoteMessageV::PublisherPut {
                    publisher_id: *publisher_id,
                    payload: payload@,
                    encoding: opt_enc_view(*encoding),
                    attachment: opt_bytes_view(*attachment),
                    timestamp: opt_ts_view(*timestamp),
                }
            },
            InRemoteMessage::PublisherDelete { publisher_id, attachment, timestamp } => {
                InRemoteMessageV::PublisherDelete {
                    publisher_id: *publisher_id,
                    attachment: opt_bytes_view(*attachment),
                    timestamp: opt_ts_view(*timestamp),
                }
            },
            InRemoteMessage::Get {
                id,
                keyexpr,
                parameters,
                payload,
                encoding,
                attachment,
                qos,
                query_settings,
                timeout_ms,
            } => {
                InRemoteMessageV::Get {
                    id: *id,
                    keyexpr: keyexpr@,
                    parameters: parameters@,
                    payload: opt_bytes_view(*payload),
                    encoding: opt_enc_view(*encoding),
                    attachment: opt_bytes_view(*attachment),
                    qos: *qos,
                    query_settings: *query_settings,
                    timeout_ms: *timeout_ms,
                }
            },
            InRemoteMessage::QuerierGet { id, querier_id, parameters, payload, encoding, attachment
            } => {
                InRemoteMessageV::QuerierGet {
                    id: *id,
                    querier_id: *querier_id,
                    parameters: parameters@,
                    payload: opt_bytes_view(*payload),
                    encoding: opt_enc_view(*encoding),
                    attachment: opt_bytes_view(*attachment),
                }
            },
            InRemoteMessage::LivelinessGet { id, keyexpr, timeout_ms } => {
                InRemoteMessageV::LivelinessGet {
                    id: *id,
                    keyexpr: keyexpr@,
                    timeout_ms: *timeout_ms,
                }
            },
            InRemoteMessage::ReplyOk {
                query_id,
                keyexpr,
                payload,
                encoding,
                attachment,
                timestamp,
                qos,
            } => {
                InRemoteMessageV::ReplyOk {
                    query_id: *query_id,
                    keyexpr: keyexpr@,
                    payload: payload@,
                    encoding: encoding@,
                    attachment: opt_bytes_view(*attachment),
                    timestamp: opt_ts_view(*timestamp),
                    qos: *qos,
                }
            },
            InRemoteMessage::ReplyDel { query_id, keyexpr, attachment, timestamp, qos } => {
                InRemoteMessageV::ReplyDel {
                    query_id: *query_id,
                    keyexpr: keyexpr@,
                    attachment: opt_bytes_view(*attachment),
                    timestamp: opt_ts_view(*timestamp),
                    qos: *qos,
                }
            },
            InRemoteMessage::ReplyErr { query_id, payload, encoding } => {
                InRemoteMessageV::ReplyErr {
                    query_id: *query_id,
                    payload: payload@,
                    encoding: encoding@,
                }
            },
            InRemoteMessage::QueryResponseFinal { query_id } => {
                InRemoteMessageV::QueryResponseFinal { query_id: *query_id }
            },
            InRemoteMessage::Ping => InRemoteMessageV::Ping,
            InRemoteMessage::PublisherDeclareMatchingListener { id, publisher_id } => {
                InRemoteMessageV::PublisherDeclareMatchingListener {
                    id: *id,
                    publisher_id: *publisher_id,
                }
            },
            InRemoteMessage::UndeclareMatchingListener { id } => {
                InRemoteMessageV::UndeclareMatchingListener { id: *id }
            },
            InRemoteMessage::PublisherGetMatchingStatus { publisher_id } => {
                InRemoteMessageV::PublisherGetMatchingStatus { publisher_id: *publisher_id }
            },
            InRemoteMessage::QuerierDeclareMatchingListener { id, querier_id } => {
                InRemoteMessageV::QuerierDeclareMatchingListener {
                    id: *id,
                    querier_id: *querier_id,
                }
            },
            InRemoteMessage::QuerierGetMatchingStatus { querier_id } => {
                InRemoteMessageV::QuerierGetMatchingStatus { querier_id: *querier_id }
            },
        }
    }
}

/// Messages the bridge sends to a client. The wire tag of each variant is
/// its position in this declaration.
#[derive(Clone, PartialEq, Eq, Debug)]
pub enum OutRemoteMessage {
    PingAck { uuid: Vec<u8> },
    Ack { tag: u8 },
    Error { message: Vec<u8> },
    ResponseTimestamp { timestamp: TimestampInfo },
    ResponseSessionInfo { zid: Vec<u8>, z_routers: Vec<Vec<u8>>, z_peers: Vec<Vec<u8>> },
    Sample { subscriber_id: u32, sample: SampleInfo },
    Query { queryable_id: u32, query_id: u32, query: QueryInfo },
    Reply { query_id: u32, reply: ReplyInfo },
    QueryResponseFinal { query_id: u32 },
    MatchingStatus { matching: bool },
    MatchingStatusUpdate { matching_listener_id: u32, matching: bool },
}

pub enum OutRemoteMessageV {
    PingAck { uuid: Seq<u8> },
    Ack { tag: u8 },
    Error { message: Seq<u8> },
    ResponseTimestamp { timestamp: TimestampInfoV },
    ResponseSessionInfo { zid: Seq<u8>, z_routers: Seq<Seq<u8>>, z_peers: Seq<Seq<u8>> },
    Sample { subscriber_id: u32, sample: SampleInfoV },
    Query { queryable_id: u32, query_id: u32, query: QueryInfoV },
    Reply { query_id: u32, reply: ReplyInfoV },
    QueryResponseFinal { query_id: u32 },
    MatchingStatus { matching: bool },
    MatchingStatusUpdate { matching_listener_id: u32, matching: bool },
}

pub open spec fn zids_view(v: Seq<Vec<u8>>) -> Seq<Seq<u8>> {
    v.map_values(|z: Vec<u8>| z@)
}

impl View for OutRemoteMessage {
    type V = OutRemoteMessageV;

    open spec fn view(&self) -> OutRemoteMessageV {
        match self {
            OutRemoteMessage::PingAck { uuid } => OutRemoteMessageV::PingAck { uuid: uuid@ },
            OutRemoteMessage::Ack { tag } => OutRemoteMessageV::Ack { tag: *tag },
            OutRemoteMessage::Error { message } => OutRemoteMessageV::Error { message: message@ },
            OutRemoteMessage::ResponseTimestamp { timestamp } => {
                OutRemoteMessageV::ResponseTimestamp { timestamp: timestamp@ }
            },
            OutRemoteMessage::ResponseSessionInfo { zid, z_routers, z_peers } => {
                OutRemoteMessageV::ResponseSessionInfo {
                    zid: zid@,
                    z_routers: zids_view(z_routers@),
                    z_peers: zids_view(z_peers@),
                }
            },
            OutRemoteMessage::Sample { subscriber_id, sample } => {
                OutRemoteMessageV::Sample { subscriber_id: *subscriber_id, sample: sample@ }
            },
            OutRemoteMessage::Query { queryable_id, query_id, query } => {
                OutRemoteMessageV::Query {
                    queryable_id: *queryable_id,
                    query_id: *query_id,
                    query: query@,
                }
            },
            OutRemoteMessage::Reply { query_id, reply } => {
                OutRemoteMessageV::Reply { query_id: *query_id, reply: reply@ }
            },
            OutRemoteMessage::QueryResponseFinal { query_id } => {
                OutRemoteMessageV::QueryResponseFinal { query_id: *query_id }
            },
            OutRemoteMessage::MatchingStatus { matching } => {
                OutRemoteMessageV::MatchingStatus { matching: *matching }
            },
            OutRemoteMessage::MatchingStatusUpdate { matching_listener_id, matching } => {
                OutRemoteMessageV::MatchingStatusUpdate {
                    matching_listener_id: *matching_listener_id,
                    matching: *matching,
                }
            },
        }
    }
}

/// The parsed frame header: the low seven tag bits, and the sequence id
/// that follows when the ack bit was set.
#[derive(Clone, Copy, PartialEq, Eq, Debug)]
pub struct Header {
    pub tag: u8,
    pub sequence_id: Option<u32>,
}

/// Why a frame could not be decoded. A header-level failure carries no
/// context; a body-level failure keeps the parsed header so a response can
/// still be correlated.
#[derive(Clone, Copy, PartialEq, Eq, Debug)]
pub enum DecodeError {
    InvalidHeader,
    InvalidBody(Header),
}

} // verus!
