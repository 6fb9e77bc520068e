//! Wire round trips: decoding an encoded frame restores the message, the
//! tag ordinal and the sequence id, for every inbound variant and for the
//! outbound frames.

use zenoh_plugin_remote_api::codec::{decode_in, decode_out, encode_in, encode_out};
use zenoh_plugin_remote_api::messages::{
    DecodeError, EncodingInfo, InRemoteMessage, OutRemoteMessage, QueryInfo, ReplyInfo, SampleInfo,
    SampleKind, TimestampInfo,
};
use zenoh_plugin_remote_api::qos::{Locality, Qos, QuerySettings, ReplyKeyExpr};

fn enc(id: u16, schema: &[u8]) -> EncodingInfo {
    EncodingInfo {
        id,
        schema: schema.to_vec(),
    }
}

fn ts(ntp64: u64) -> TimestampInfo {
    TimestampInfo {
        ntp64,
        id: vec![7u8; 16],
    }
}

fn roundtrip_in(msg: InRemoteMessage, expected_tag: u8, seq: Option<u32>) {
    let bytes = encode_in(&msg, seq);
    let (header, back) = decode_in(&bytes).expect("frame must decode");
    assert_eq!(header.tag, expected_tag);
    assert_eq!(header.sequence_id, seq);
    assert_eq!(back, msg);
}

fn roundtrip_out(msg: OutRemoteMessage, expected_tag: u8, seq: Option<u32>) {
    let bytes = encode_out(&msg, seq);
    let (header, back) = decode_out(&bytes).expect("frame must decode");
    assert_eq!(header.tag, expected_tag);
    assert_eq!(header.sequence_id, seq);
    assert_eq!(back, msg);
}

#[test]
fn in_declare_roundtrips() {
    roundtrip_in(
        InRemoteMessage::DeclarePublisher {
            id: 1,
            keyexpr: b"a/b".to_vec(),
            encoding: enc(3, b"text/plain"),
            qos: Qos::from_byte(0x25),
        },
        0,
        Some(1),
    );
    roundtrip_in(InRemoteMessage::UndeclarePublisher { id: 1 }, 1, Some(2));
    roundtrip_in(
        InRemoteMessage::DeclareSubscriber {
            id: 5,
            keyexpr: b"x/**".to_vec(),
            allowed_origin: Locality::Remote,
        },
        2,
        None,
    );
    roundtrip_in(InRemoteMessage::UndeclareSubscriber { id: 5 }, 3, None);
    roundtrip_in(
        InRemoteMessage::DeclareQueryable {
            id: 9,
            keyexpr: b"q/*".to_vec(),
            complete: true,
            allowed_origin: Locality::Any,
        },
        4,
        Some(9),
    );
    roundtrip_in(InRemoteMessage::UndeclareQueryable { id: 9 }, 5, None);
    roundtrip_in(
        InRemoteMessage::DeclareQuerier {
            id: 2,
            keyexpr: b"svc/*".to_vec(),
            qos: Qos::from_byte(0),
            query_settings: QuerySettings::from_byte(0x12),
            timeout_ms: 2000,
        },
        6,
        Some(4),
    );
    roundtrip_in(InRemoteMessage::UndeclareQuerier { id: 2 }, 7, None);
    roundtrip_in(
        InRemoteMessage::DeclareLivelinessToken {
            id: 11,
            keyexpr: b"alive/me".to_vec(),
        },
        8,
        None,
    );
    roundtrip_in(InRemoteMessage::UndeclareLivelinessToken { id: 11 }, 9, None);
    roundtrip_in(
        InRemoteMessage::DeclareLivelinessSubscriber {
            id: 12,
            keyexpr: b"alive/**".to_vec(),
            history: true,
        },
        10,
        None,
    );
    roundtrip_in(
        InRemoteMessage::UndeclareLivelinessSubscriber { id: 12 },
        11,
        None,
    );
}

#[test]
fn in_session_and_data_roundtrips() {
    roundtrip_in(InRemoteMessage::GetSessionInfo, 12, Some(77));
    roundtrip_in(InRemoteMessage::GetTimestamp, 13, None);
    roundtrip_in(
        InRemoteMessage::Put {
            keyexpr: b"a/b".to_vec(),
            payload: vec![1, 2, 3],
            encoding: enc(0, b""),
            attachment: Some(b"meta".to_vec()),
            timestamp: Some(ts(42)),
            qos: Qos::from_byte(0x15),
        },
        14,
        Some(3),
    );
    roundtrip_in(
        InRemoteMessage::Delete {
            keyexpr: b"a/b".to_vec(),
            attachment: None,
            timestamp: None,
            qos: Qos::from_byte(0),
        },
        15,
        None,
    );
    roundtrip_in(
        InRemoteMessage::PublisherPut {
            publisher_id: 1,
            payload: vec![0x01, 0x02],
            encoding: None,
            attachment: None,
            timestamp: None,
        },
        16,
        None,
    );
    roundtrip_in(
        InRemoteMessage::PublisherDelete {
            publisher_id: 1,
            attachment: Some(vec![]),
            timestamp: Some(ts(1)),
        },
        17,
        None,
    );
    roundtrip_in(
        InRemoteMessage::Get {
            id: 77,
            keyexpr: b"svc/*".to_vec(),
            parameters: b"arg=1".to_vec(),
            payload: Some(vec![9]),
            encoding: Some(enc(8, b"app/json")),
            attachment: None,
            qos: Qos::from_byte(5),
            query_settings: QuerySettings::from_byte(0),
            timeout_ms: 2000,
        },
        18,
        None,
    );
    roundtrip_in(
        InRemoteMessage::QuerierGet {
            id: 78,
            querier_id: 2,
            parameters: b"".to_vec(),
            payload: None,
            encoding: None,
            attachment: Some(b"x".to_vec()),
        },
        19,
        Some(8),
    );
    roundtrip_in(
        InRemoteMessage::LivelinessGet {
            id: 80,
            keyexpr: b"alive/**".to_vec(),
            timeout_ms: 500,
        },
        20,
        None,
    );
}

#[test]
fn in_reply_and_listener_roundtrips() {
    roundtrip_in(
        InRemoteMessage::ReplyOk {
            query_id: 4,
            keyexpr: b"q/z".to_vec(),
            payload: b"ok".to_vec(),
            encoding: enc(1, b""),
            attachment: None,
            timestamp: Some(ts(9)),
            qos: Qos::from_byte(5),
        },
        21,
        Some(4),
    );
    roundtrip_in(
        InRemoteMessage::ReplyDel {
            query_id: 4,
            keyexpr: b"q/z".to_vec(),
            attachment: None,
            timestamp: None,
            qos: Qos::from_byte(5),
        },
        22,
        None,
    );
    roundtrip_in(
        InRemoteMessage::ReplyErr {
            query_id: 4,
            payload: b"bad".to_vec(),
            encoding: enc(0, b""),
        },
        23,
        None,
    );
    roundtrip_in(InRemoteMessage::QueryResponseFinal { query_id: 4 }, 24, Some(5));
    roundtrip_in(InRemoteMessage::Ping, 25, Some(7));
    roundtrip_in(
        InRemoteMessage::PublisherDeclareMatchingListener {
            id: 31,
            publisher_id: 1,
        },
        26,
        None,
    );
    roundtrip_in(InRemoteMessage::UndeclareMatchingListener { id: 31 }, 27, None);
    roundtrip_in(
        InRemoteMessage::PublisherGetMatchingStatus { publisher_id: 1 },
        28,
        Some(6),
    );
    roundtrip_in(
        InRemoteMessage::QuerierDeclareMatchingListener {
            id: 32,
            querier_id: 2,
        },
        29,
        None,
    );
    roundtrip_in(
        InRemoteMessage::QuerierGetMatchingStatus { querier_id: 2 },
        30,
        None,
    );
}

#[test]
fn out_roundtrips() {
    roundtrip_out(
        OutRemoteMessage::PingAck {
            uuid: b"3fa85f64-5717-4562-b3fc-2c963f66afa6".to_vec(),
        },
        0,
        None,
    );
    roundtrip_out(OutRemoteMessage::Ack { tag: 0 }, 1, Some(1));
    roundtrip_out(
        OutRemoteMessage::Error {
            message: b"Publisher with id 1 does not exist".to_vec(),
        },
        2,
        Some(3),
    );
    roundtrip_out(
        OutRemoteMessage::ResponseTimestamp { timestamp: ts(99) },
        3,
        Some(2),
    );
    roundtrip_out(
        OutRemoteMessage::ResponseSessionInfo {
            zid: vec![1u8; 16],
            z_routers: vec![vec![2u8; 16], vec![3u8; 16]],
            z_peers: vec![],
        },
        4,
        Some(2),
    );
    roundtrip_out(
        OutRemoteMessage::Sample {
            subscriber_id: 5,
            sample: SampleInfo {
                keyexpr: b"x/y".to_vec(),
                payload: b"hello".to_vec(),
                kind: SampleKind::Put,
                encoding: enc(0, b""),
                attachment: Some(b"a".to_vec()),
                timestamp: None,
                qos: Qos::new(
                    zenoh_plugin_remote_api::qos::Priority::Data,
                    zenoh_plugin_remote_api::qos::CongestionControl::Drop,
                    true,
                    zenoh_plugin_remote_api::qos::Reliability::BestEffort,
                    Locality::Any,
                ),
            },
        },
        5,
        None,
    );
    roundtrip_out(
        OutRemoteMessage::Query {
            queryable_id: 9,
            query_id: 0,
            query: QueryInfo {
                keyexpr: b"q/z".to_vec(),
                parameters: b"".to_vec(),
                payload: None,
                encoding: None,
                attachment: None,
                reply_keyexpr: ReplyKeyExpr::MatchingQuery,
            },
        },
        6,
        None,
    );
    roundtrip_out(
        OutRemoteMessage::Reply {
            query_id: 77,
            reply: ReplyInfo::Failure {
                payload: b"oops".to_vec(),
                encoding: enc(0, b""),
            },
        },
        7,
        None,
    );
    roundtrip_out(
        OutRemoteMessage::Reply {
            query_id: 77,
            reply: ReplyInfo::Value(SampleInfo {
                keyexpr: b"svc/a".to_vec(),
                payload: b"v".to_vec(),
                kind: SampleKind::Delete,
                encoding: enc(2, b"s"),
                attachment: None,
                timestamp: Some(ts(5)),
                qos: Qos::from_byte(5),
            }),
        },
        7,
        None,
    );
    roundtrip_out(OutRemoteMessage::QueryResponseFinal { query_id: 77 }, 8, None);
    roundtrip_out(OutRemoteMessage::MatchingStatus { matching: true }, 9, Some(6));
    roundtrip_out(
        OutRemoteMessage::MatchingStatusUpdate {
            matching_listener_id: 31,
            matching: false,
        },
        10,
        None,
    );
}

#[test]
fn error_reply_layout() {
    // An error reply carries the discriminant, then the encoding, then the
    // payload bytes.
    let frame = encode_out(
        &OutRemoteMessage::Reply {
            query_id: 77,
            reply: ReplyInfo::Failure {
                payload: b"oops".to_vec(),
                encoding: enc(0, b""),
            },
        },
        None,
    );
    assert_eq!(
        frame,
        vec![7, 77, 0, 0, 0, 0, 0, 0, 0, 4, b'o', b'o', b'p', b's']
    );
}

#[test]
fn header_layout() {
    // With a sequence id, bit 7 of the tag byte is set and four
    // little-endian bytes follow; without one, the body starts right away.
    let with_seq = encode_in(&InRemoteMessage::Ping, Some(7));
    assert_eq!(with_seq, vec![25 | 0x80, 7, 0, 0, 0]);
    let without_seq = encode_in(&InRemoteMessage::Ping, None);
    assert_eq!(without_seq, vec![25]);
}

#[test]
fn unknown_tag_is_a_header_error() {
    assert_eq!(decode_in(&[31]), Err(DecodeError::InvalidHeader));
    assert_eq!(decode_in(&[]), Err(DecodeError::InvalidHeader));
    // Ack requested but the sequence id is truncated.
    assert_eq!(decode_in(&[0x80 | 25, 1, 2]), Err(DecodeError::InvalidHeader));
    assert_eq!(decode_out(&[11]), Err(DecodeError::InvalidHeader));
}

#[test]
fn malformed_body_keeps_the_header() {
    // UndeclarePublisher with a truncated id, ack requested with seq 9.
    let r = decode_in(&[0x80 | 1, 9, 0, 0, 0, 1, 2]);
    match r {
        Err(DecodeError::InvalidBody(h)) => {
            assert_eq!(h.tag, 1);
            assert_eq!(h.sequence_id, Some(9));
        }
        other => panic!("expected a body error, got {:?}", other),
    }
}

#[test]
fn invalid_key_expression_is_a_body_error() {
    // "a//b" is not a valid canonical key expression; "a/b" is. Both build
    // the same frame shape, so only the key-expression check can tell them
    // apart.
    let good = encode_in(
        &InRemoteMessage::DeclareLivelinessToken {
            id: 1,
            keyexpr: b"a/b".to_vec(),
        },
        Some(2),
    );
    assert!(decode_in(&good).is_ok());
    let bad = encode_in(
        &InRemoteMessage::DeclareLivelinessToken {
            id: 1,
            keyexpr: b"a//b".to_vec(),
        },
        Some(2),
    );
    match decode_in(&bad) {
        Err(DecodeError::InvalidBody(h)) => assert_eq!(h.sequence_id, Some(2)),
        other => panic!("expected a body error, got {:?}", other),
    }
}

#[test]
fn invalid_locality_byte_is_a_body_error() {
    let mut frame = encode_in(
        &InRemoteMessage::DeclareSubscriber {
            id: 5,
            keyexpr: b"x".to_vec(),
            allowed_origin: Locality::Any,
        },
        None,
    );
    // The locality byte is the last body byte; 3 is reserved.
    *frame.last_mut().unwrap() = 3;
    assert!(matches!(decode_in(&frame), Err(DecodeError::InvalidBody(_))));
}

#[test]
fn trailing_bytes_are_ignored() {
    let mut frame = encode_in(&InRemoteMessage::UndeclarePublisher { id: 1 }, None);
    frame.push(0xab);
    let (_, msg) = decode_in(&frame).expect("frame with trailing bytes");
    assert_eq!(msg, InRemoteMessage::UndeclarePublisher { id: 1 });
}
