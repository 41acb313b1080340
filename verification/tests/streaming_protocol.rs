//! Tests of the streaming transport: session registry, fanout, presence.

use yjs_collaboration_server::document_service::{DocumentService, ServiceError};
use yjs_collaboration_server::repository::InMemoryDocumentRepository;
use yjs_collaboration_server::streaming::{ClientEnvelope, ClientPayload, ServerPayload,
    StreamingSessions};

use yrs::updates::decoder::Decode;
use yrs::{Doc, GetString, ReadTxn, StateVector, Text, Transact};

const NOW: i64 = 1_700_000_000;

fn make_update(content: &str) -> Vec<u8> {
    let doc = Doc::new();
    let text = doc.get_or_insert_text("content");
    {
        let mut txn = doc.transact_mut();
        text.insert(&mut txn, 0, content);
    }
    let txn = doc.transact();
    txn.encode_state_as_update_v1(&StateVector::default())
}

fn text_of_update(update: &[u8]) -> String {
    let doc = Doc::new();
    let text = doc.get_or_insert_text("content");
    {
        let mut txn = doc.transact_mut();
        let decoded = yrs::Update::decode_v1(update).expect("update must decode");
        txn.apply_update(decoded).expect("update must apply");
    }
    let txn = doc.transact();
    text.get_string(&txn)
}

fn envelope(doc: &str, client: &str, message: ClientPayload) -> ClientEnvelope {
    ClientEnvelope {
        document_id: String::from(doc),
        client_id: String::from(client),
        message,
    }
}

fn sync(doc: &str, client: &str) -> ClientEnvelope {
    envelope(doc, client, ClientPayload::SyncRequest { state_vector: Vec::new() })
}

fn join(doc: &str, client: &str, user: &str) -> ClientEnvelope {
    envelope(
        doc,
        client,
        ClientPayload::JoinDocument {
            user_id: String::from(user),
            user_name: String::from(user),
            user_color: String::from("#334455"),
            metadata: Vec::new(),
        },
    )
}

#[test]
fn sync_request_attaches_and_answers() {
    let mut hub = StreamingSessions::new();
    let mut svc = DocumentService::new(InMemoryDocumentRepository::new());

    hub.handle_client_message_at(&mut svc, &sync("doc1", "a"), NOW);
    let out = hub.take_outbox(&String::from("doc1"), &String::from("a"));
    assert_eq!(out.len(), 1);
    assert_eq!(out[0].document_id, "doc1");
    assert_eq!(out[0].timestamp, NOW);
    match &out[0].message {
        ServerPayload::SyncResponse { update_data: _, state_vector } => {
            assert!(StateVector::decode_v1(state_vector).is_ok());
        },
        _ => panic!("expected a sync response"),
    }
}

#[test]
fn update_before_sync_is_rejected_with_not_attached() {
    let mut hub = StreamingSessions::new();
    let mut svc = DocumentService::new(InMemoryDocumentRepository::new());

    let msg = envelope("doc1", "a", ClientPayload::Update { update_data: make_update("x") });
    hub.handle_client_message_at(&mut svc, &msg, NOW);
    let out = hub.take_outbox(&String::from("doc1"), &String::from("a"));
    assert_eq!(out.len(), 1);
    match &out[0].message {
        ServerPayload::Error { kind, .. } => assert_eq!(*kind, ServiceError::NotAttached),
        _ => panic!("expected a not-attached error"),
    }
    // Nothing was applied or created beyond the session entry.
    assert_eq!(svc.notification_count(&String::from("doc1")), 0);
}

#[test]
fn malformed_update_is_answered_with_error() {
    let mut hub = StreamingSessions::new();
    let mut svc = DocumentService::new(InMemoryDocumentRepository::new());
    hub.handle_client_message_at(&mut svc, &sync("doc1", "a"), NOW);
    hub.take_outbox(&String::from("doc1"), &String::from("a"));

    let msg = envelope("doc1", "a", ClientPayload::Update { update_data: vec![0xde, 0xad] });
    hub.handle_client_message_at(&mut svc, &msg, NOW);
    let out = hub.take_outbox(&String::from("doc1"), &String::from("a"));
    assert_eq!(out.len(), 1);
    match &out[0].message {
        ServerPayload::Error { kind, .. } => assert_eq!(*kind, ServiceError::DecodeError),
        _ => panic!("expected a decode error"),
    }
}

#[test]
fn presence_consistency_join_then_leave() {
    let mut hub = StreamingSessions::new();
    let mut svc = DocumentService::new(InMemoryDocumentRepository::new());
    let doc = String::from("doc1");

    hub.handle_client_message_at(&mut svc, &sync("doc1", "conn-1"), NOW);
    hub.handle_client_message_at(&mut svc, &join("doc1", "conn-1", "user-u"), NOW);

    let users = hub.get_active_users_for_document(&doc);
    assert_eq!(users.len(), 1);
    assert_eq!(users[0].user_id, "user-u");
    assert_eq!(users[0].last_seen, NOW);

    let leave = envelope(
        "doc1",
        "conn-1",
        ClientPayload::LeaveDocument { user_id: String::from("user-u") },
    );
    hub.handle_client_message_at(&mut svc, &leave, NOW + 5);

    let users_after = hub.get_active_users_for_document(&doc);
    assert!(users_after.iter().all(|u| u.user_id != "user-u"));
    assert_eq!(users_after.len(), 0);
}

#[test]
fn join_and_leave_notify_other_sessions_only() {
    let mut hub = StreamingSessions::new();
    let mut svc = DocumentService::new(InMemoryDocumentRepository::new());
    hub.handle_client_message_at(&mut svc, &sync("doc1", "a"), NOW);
    hub.handle_client_message_at(&mut svc, &sync("doc1", "b"), NOW);
    hub.take_outbox(&String::from("doc1"), &String::from("a"));
    hub.take_outbox(&String::from("doc1"), &String::from("b"));

    hub.handle_client_message_at(&mut svc, &join("doc1", "a", "user-a"), NOW);

    // The joiner gets no echo of its own join.
    assert_eq!(hub.take_outbox(&String::from("doc1"), &String::from("a")).len(), 0);
    let out_b = hub.take_outbox(&String::from("doc1"), &String::from("b"));
    assert_eq!(out_b.len(), 1);
    match &out_b[0].message {
        ServerPayload::UserJoined { user_id, client_id, .. } => {
            assert_eq!(user_id.as_str(), "user-a");
            assert_eq!(client_id.as_str(), "a");
        },
        _ => panic!("expected a user-joined notification"),
    }
}

#[test]
fn awareness_is_relayed_verbatim_to_peers() {
    let mut hub = StreamingSessions::new();
    let mut svc = DocumentService::new(InMemoryDocumentRepository::new());
    hub.handle_client_message_at(&mut svc, &sync("doc1", "a"), NOW);
    hub.handle_client_message_at(&mut svc, &sync("doc1", "b"), NOW);
    hub.take_outbox(&String::from("doc1"), &String::from("a"));
    hub.take_outbox(&String::from("doc1"), &String::from("b"));

    let msg = envelope(
        "doc1",
        "a",
        ClientPayload::Awareness { awareness_state: vec![1, 2, 3], timestamp: 42 },
    );
    hub.handle_client_message_at(&mut svc, &msg, NOW);

    assert_eq!(hub.take_outbox(&String::from("doc1"), &String::from("a")).len(), 0);
    let out_b = hub.take_outbox(&String::from("doc1"), &String::from("b"));
    assert_eq!(out_b.len(), 1);
    match &out_b[0].message {
        ServerPayload::Awareness { client_id, awareness_state, timestamp } => {
            assert_eq!(client_id.as_str(), "a");
            assert_eq!(awareness_state, &vec![1, 2, 3]);
            assert_eq!(*timestamp, 42);
        },
        _ => panic!("expected an awareness relay"),
    }
}

#[test]
fn broadcast_reaches_every_registered_session() {
    // Fanout covers every entry of the document whose client differs from
    // the originator, even one whose own messages were rejected before it
    // attached.
    let mut hub = StreamingSessions::new();
    let mut svc = DocumentService::new(InMemoryDocumentRepository::new());

    // "c" registers an entry by sending before syncing (rejected).
    let early = envelope("doc1", "c", ClientPayload::Update { update_data: vec![0, 1] });
    hub.handle_client_message_at(&mut svc, &early, NOW);
    hub.take_outbox(&String::from("doc1"), &String::from("c"));

    // "a" attaches and applies an update.
    hub.handle_client_message_at(&mut svc, &sync("doc1", "a"), NOW);
    hub.take_outbox(&String::from("doc1"), &String::from("a"));
    let upd = envelope("doc1", "a", ClientPayload::Update { update_data: make_update("x") });
    hub.handle_client_message_at(&mut svc, &upd, NOW);

    let out_c = hub.take_outbox(&String::from("doc1"), &String::from("c"));
    assert_eq!(out_c.len(), 1);
    assert!(matches!(out_c[0].message, ServerPayload::Update { .. }));
}

#[test]
fn heartbeat_refreshes_last_seen() {
    let mut hub = StreamingSessions::new();
    let mut svc = DocumentService::new(InMemoryDocumentRepository::new());
    hub.handle_client_message_at(&mut svc, &sync("doc1", "a"), NOW);
    hub.handle_client_message_at(&mut svc, &join("doc1", "a", "u"), NOW);

    let beat = envelope("doc1", "a", ClientPayload::Heartbeat);
    hub.handle_client_message_at(&mut svc, &beat, NOW + 30);

    let users = hub.get_active_users_for_document(&String::from("doc1"));
    assert_eq!(users.len(), 1);
    assert_eq!(users[0].last_seen, NOW + 30);
}

#[test]
fn end_to_end_scenario() {
    // Client A opens "doc1", applies an update; client B (attached earlier)
    // receives it with A as origin; a re-sync against the initial state
    // vector yields an update equivalent to A's edit.
    let mut hub = StreamingSessions::new();
    let mut svc = DocumentService::new(InMemoryDocumentRepository::new());
    let doc = String::from("doc1");

    // B attaches first.
    hub.handle_client_message_at(&mut svc, &sync("doc1", "b"), NOW);
    hub.take_outbox(&doc, &String::from("b"));

    // A attaches and remembers the empty state vector SV0.
    hub.handle_client_message_at(&mut svc, &sync("doc1", "a"), NOW);
    let out_a = hub.take_outbox(&doc, &String::from("a"));
    let sv0 = match &out_a[0].message {
        ServerPayload::SyncResponse { state_vector, .. } => state_vector.clone(),
        _ => panic!("expected a sync response"),
    };

    // A sends an update.
    let payload = make_update("collaborative edit");
    let upd = envelope("doc1", "a", ClientPayload::Update { update_data: payload.clone() });
    hub.handle_client_message_at(&mut svc, &upd, NOW + 1);

    // A gets no echo; B receives exactly A's update, with origin and
    // sequence number.
    assert_eq!(hub.take_outbox(&doc, &String::from("a")).len(), 0);
    let out_b = hub.take_outbox(&doc, &String::from("b"));
    assert_eq!(out_b.len(), 1);
    match &out_b[0].message {
        ServerPayload::Update { update_data, origin_client_id, sequence_number } => {
            assert_eq!(update_data, &payload);
            assert_eq!(origin_client_id.as_str(), "a");
            assert_eq!(*sequence_number, 1);
        },
        _ => panic!("expected an update notification"),
    }

    // B re-syncs against SV0 and receives the content A produced.
    let resync = envelope(
        "doc1",
        "b",
        ClientPayload::SyncRequest { state_vector: sv0 },
    );
    hub.handle_client_message_at(&mut svc, &resync, NOW + 2);
    let out_b2 = hub.take_outbox(&doc, &String::from("b"));
    match &out_b2[0].message {
        ServerPayload::SyncResponse { update_data, .. } => {
            assert_eq!(text_of_update(update_data), "collaborative edit");
        },
        _ => panic!("expected a sync response"),
    }
}

#[test]
fn document_state_query_reports_users_and_content() {
    let mut hub = StreamingSessions::new();
    let mut svc = DocumentService::new(InMemoryDocumentRepository::new());
    let doc = String::from("doc1");
    hub.handle_client_message_at(&mut svc, &sync("doc1", "a"), NOW);
    hub.handle_client_message_at(&mut svc, &join("doc1", "a", "u"), NOW);
    let upd = envelope(
        "doc1",
        "a",
        ClientPayload::Update { update_data: make_update("state of the doc") },
    );
    hub.handle_client_message_at(&mut svc, &upd, NOW);

    let state = hub.get_document_state(&mut svc, &doc, NOW + 9);
    assert!(StateVector::decode_v1(&state.state_vector).is_ok());
    assert_eq!(text_of_update(&state.document_data), "state of the doc");
    assert_eq!(state.active_users.len(), 1);
    assert_eq!(state.active_users[0].user_id, "u");
    assert_eq!(state.last_modified, NOW + 9);
}

#[test]
fn session_removal_prunes_entry() {
    let mut hub = StreamingSessions::new();
    let mut svc = DocumentService::new(InMemoryDocumentRepository::new());
    hub.handle_client_message_at(&mut svc, &sync("doc1", "a"), NOW);
    hub.handle_client_message_at(&mut svc, &join("doc1", "a", "u"), NOW);
    hub.remove_session(&String::from("doc1"), &String::from("a"));
    assert_eq!(hub.get_active_users_for_document(&String::from("doc1")).len(), 0);
    // A removed session no longer receives broadcasts.
    assert_eq!(hub.take_outbox(&String::from("doc1"), &String::from("a")).len(), 0);
}
