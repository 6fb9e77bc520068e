//! End-to-end protocol scenarios against the per-connection state: ping
//! acknowledgement, the publisher lifecycle, queryable echo, get replies,
//! and eviction of unanswered queries.

use zenoh_plugin_remote_api::messages::{Header, InRemoteMessage, OutRemoteMessage};
use zenoh_plugin_remote_api::pending::QueryTracker;
use zenoh_plugin_remote_api::qos::Qos;
use zenoh_plugin_remote_api::state::{respond, EntityKind, ProtoError, RemoteState, Step};

fn fresh() -> (RemoteState, QueryTracker) {
    (
        RemoteState::new(b"3fa85f64-5717-4562-b3fc-2c963f66afa6".to_vec()),
        QueryTracker::new(),
    )
}

fn declare_publisher(id: u32, key: &[u8]) -> InRemoteMessage {
    InRemoteMessage::DeclarePublisher {
        id,
        keyexpr: key.to_vec(),
        encoding: zenoh_plugin_remote_api::messages::EncodingInfo {
            id: 0,
            schema: vec![],
        },
        qos: Qos::default(),
    }
}

#[test]
fn ping_gets_an_inline_ack_with_the_client_uuid() {
    let (mut state, mut pending) = fresh();
    let step = state.handle_message(&mut pending, InRemoteMessage::Ping);
    let reply = match step {
        Step::Reply(m) => m,
        other => panic!("expected an inline reply, got {:?}", other),
    };
    assert_eq!(
        reply,
        OutRemoteMessage::PingAck {
            uuid: b"3fa85f64-5717-4562-b3fc-2c963f66afa6".to_vec()
        }
    );
    // The inline response substitutes for the Ack frame and carries the
    // request's sequence id.
    let header = Header {
        tag: 25,
        sequence_id: Some(7),
    };
    let out = respond(&header, Ok(Some(reply.clone())));
    assert_eq!(out, Some((reply, Some(7))));
}

#[test]
fn publisher_lifecycle() {
    let (mut state, mut pending) = fresh();

    // Declare publisher id 1 on "a/b" with ack requested, seq 1.
    let msg = declare_publisher(1, b"a/b");
    let step = state.handle_message(&mut pending, msg.clone());
    assert_eq!(step, Step::Act(msg));
    state.commit_declare_publisher(1, b"a/b".to_vec());
    let header = Header {
        tag: 0,
        sequence_id: Some(1),
    };
    assert_eq!(
        respond(&header, Ok(None)),
        Some((OutRemoteMessage::Ack { tag: 0 }, Some(1)))
    );

    // A duplicate declare is rejected and mutates nothing.
    let step = state.handle_message(&mut pending, declare_publisher(1, b"a/b"));
    assert_eq!(
        step,
        Step::Fail(ProtoError::AlreadyExists(EntityKind::Publisher, 1))
    );
    assert_eq!(
        ProtoError::AlreadyExists(EntityKind::Publisher, 1).render(),
        b"Publisher with id: '1' already exists".to_vec()
    );

    // PublisherPut without an ack: the action is validated, nothing is
    // sent back.
    let put = InRemoteMessage::PublisherPut {
        publisher_id: 1,
        payload: vec![0x01, 0x02],
        encoding: None,
        attachment: None,
        timestamp: None,
    };
    let step = state.handle_message(&mut pending, put.clone());
    assert_eq!(step, Step::Act(put));
    let header = Header {
        tag: 16,
        sequence_id: None,
    };
    assert_eq!(respond(&header, Ok(None)), None);

    // Undeclare with ack seq 2 succeeds.
    let step = state.handle_message(&mut pending, InRemoteMessage::UndeclarePublisher { id: 1 });
    assert_eq!(
        step,
        Step::Act(InRemoteMessage::UndeclarePublisher { id: 1 })
    );
    let header = Header {
        tag: 1,
        sequence_id: Some(2),
    };
    assert_eq!(
        respond(&header, Ok(None)),
        Some((OutRemoteMessage::Ack { tag: 1 }, Some(2)))
    );

    // A second undeclare with seq 3 yields the error frame.
    let step = state.handle_message(&mut pending, InRemoteMessage::UndeclarePublisher { id: 1 });
    let err = match step {
        Step::Fail(e) => e,
        other => panic!("expected a failure, got {:?}", other),
    };
    assert_eq!(err, ProtoError::NotFound(EntityKind::Publisher, 1));
    let text = err.render();
    assert_eq!(text, b"Publisher with id 1 does not exist".to_vec());
    let header = Header {
        tag: 1,
        sequence_id: Some(3),
    };
    assert_eq!(
        respond(&header, Err(text.clone())),
        Some((OutRemoteMessage::Error { message: text }, Some(3)))
    );

    // A put on the undeclared publisher fails too.
    let step = state.handle_message(
        &mut pending,
        InRemoteMessage::PublisherPut {
            publisher_id: 1,
            payload: vec![],
            encoding: None,
            attachment: None,
            timestamp: None,
        },
    );
    assert_eq!(step, Step::Fail(ProtoError::NotFound(EntityKind::Publisher, 1)));
}

#[test]
fn queryable_echo() {
    let (mut state, mut pending) = fresh();

    // Declare queryable id 9 on "q/*".
    let msg = InRemoteMessage::DeclareQueryable {
        id: 9,
        keyexpr: b"q/*".to_vec(),
        complete: false,
        allowed_origin: zenoh_plugin_remote_api::qos::Locality::Any,
    };
    let step = state.handle_message(&mut pending, msg.clone());
    assert_eq!(step, Step::Act(msg));
    state.commit_declare_queryable(9, b"q/*".to_vec());

    // A fabric query arrives on the queryable's callback path: it gets the
    // next query id and is tracked.
    let (query_id, evicted) = pending.track_new();
    assert_eq!(query_id, 0);
    assert_eq!(evicted, None);

    // The client answers: ReplyOk on the tracked id is accepted.
    let reply = InRemoteMessage::ReplyOk {
        query_id,
        keyexpr: b"q/z".to_vec(),
        payload: b"ok".to_vec(),
        encoding: zenoh_plugin_remote_api::messages::EncodingInfo {
            id: 0,
            schema: vec![],
        },
        attachment: None,
        timestamp: None,
        qos: Qos::default(),
    };
    let step = state.handle_message(&mut pending, reply.clone());
    assert_eq!(step, Step::Act(reply));

    // The final response pops the entry.
    let step = state.handle_message(
        &mut pending,
        InRemoteMessage::QueryResponseFinal { query_id },
    );
    assert_eq!(step, Step::Done);

    // A second final response reports the missing query.
    let step = state.handle_message(
        &mut pending,
        InRemoteMessage::QueryResponseFinal { query_id },
    );
    assert_eq!(step, Step::Fail(ProtoError::QueryNotFound(query_id)));
    assert_eq!(
        ProtoError::QueryNotFound(query_id).render(),
        b"Query with id 0 does not exist".to_vec()
    );
}

#[test]
fn get_with_replies_sends_no_ack_when_not_requested() {
    let (mut state, mut pending) = fresh();
    let get = InRemoteMessage::Get {
        id: 77,
        keyexpr: b"svc/*".to_vec(),
        parameters: vec![],
        payload: None,
        encoding: None,
        attachment: None,
        qos: Qos::default(),
        query_settings: zenoh_plugin_remote_api::qos::QuerySettings::default(),
        timeout_ms: 2000,
    };
    let step = state.handle_message(&mut pending, get.clone());
    assert_eq!(step, Step::Act(get));
    // Without a sequence id, a successful request is not acknowledged; the
    // replies and the final marker flow as plain outbound frames.
    let header = Header {
        tag: 18,
        sequence_id: None,
    };
    assert_eq!(respond(&header, Ok(None)), None);
    let fin = OutRemoteMessage::QueryResponseFinal { query_id: 77 };
    assert_eq!(respond(&header, Ok(Some(fin.clone()))), Some((fin, None)));
}

#[test]
fn pending_query_eviction() {
    let (mut state, mut pending) = fresh();

    // Deliver 1001 external queries with no client replies: the oldest
    // (id 0) is evicted when the 1001st arrives.
    let mut evicted: Option<u32> = None;
    for expected in 0..1001u32 {
        let (qid, ev) = pending.track_new();
        assert_eq!(qid, expected);
        if expected < 1000 {
            assert_eq!(ev, None);
        } else {
            evicted = ev;
        }
    }
    assert_eq!(evicted, Some(0));
    assert_eq!(pending.len(), 1000);

    // Replying to the evicted query reports it as missing.
    let reply = InRemoteMessage::ReplyOk {
        query_id: 0,
        keyexpr: b"q/z".to_vec(),
        payload: vec![],
        encoding: zenoh_plugin_remote_api::messages::EncodingInfo {
            id: 0,
            schema: vec![],
        },
        attachment: None,
        timestamp: None,
        qos: Qos::default(),
    };
    let step = state.handle_message(&mut pending, reply);
    assert_eq!(step, Step::Fail(ProtoError::QueryNotFound(0)));
    assert_eq!(
        ProtoError::QueryNotFound(0).render(),
        b"Query with id 0 does not exist".to_vec()
    );

    // Replying to a still-tracked query works.
    let reply = InRemoteMessage::ReplyErr {
        query_id: 1,
        payload: b"e".to_vec(),
        encoding: zenoh_plugin_remote_api::messages::EncodingInfo {
            id: 0,
            schema: vec![],
        },
    };
    let step = state.handle_message(&mut pending, reply.clone());
    assert_eq!(step, Step::Act(reply));
}

#[test]
fn clear_leaves_no_live_entities() {
    let (mut state, mut pending) = fresh();
    let msg = declare_publisher(1, b"a/b");
    state.handle_message(&mut pending, msg);
    state.commit_declare_publisher(1, b"a/b".to_vec());
    state.commit_declare_subscriber(5, b"x/**".to_vec());
    pending.track_new();
    state.clear();
    pending.clear();
    assert_eq!(pending.len(), 0);
    // Every id is free again: undeclares report the entities as gone.
    let step = state.handle_message(&mut pending, InRemoteMessage::UndeclarePublisher { id: 1 });
    assert_eq!(step, Step::Fail(ProtoError::NotFound(EntityKind::Publisher, 1)));
    let step = state.handle_message(&mut pending, InRemoteMessage::UndeclareSubscriber { id: 5 });
    assert_eq!(
        step,
        Step::Fail(ProtoError::NotFound(EntityKind::Subscriber, 5))
    );
}

#[test]
fn matching_listener_requires_its_publisher() {
    let (mut state, mut pending) = fresh();
    let msg = InRemoteMessage::PublisherDeclareMatchingListener {
        id: 31,
        publisher_id: 1,
    };
    let step = state.handle_message(&mut pending, msg.clone());
    assert_eq!(step, Step::Fail(ProtoError::NotFound(EntityKind::Publisher, 1)));

    state.handle_message(&mut pending, declare_publisher(1, b"a/b"));
    state.commit_declare_publisher(1, b"a/b".to_vec());
    let step = state.handle_message(&mut pending, msg.clone());
    assert_eq!(step, Step::Act(msg.clone()));
    state.commit_declare_matching_listener(31);

    // The listener id is now taken.
    let step = state.handle_message(&mut pending, msg);
    assert_eq!(
        step,
        Step::Fail(ProtoError::AlreadyExists(EntityKind::MatchingListener, 31))
    );
    assert_eq!(
        ProtoError::AlreadyExists(EntityKind::MatchingListener, 31).render(),
        b"Matching listener with id: '31' already exists".to_vec()
    );
}
