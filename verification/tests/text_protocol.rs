//! Tests of the text-transport protocol: base64 codec, use cases, frames.

use yjs_collaboration_server::config::{AppConfig, ConfigError};
use yjs_collaboration_server::document_service::ServiceError;
use yjs_collaboration_server::messages::ClientMessage;
use yjs_collaboration_server::repository::InMemoryDocumentRepository;
use yjs_collaboration_server::use_cases::DocumentUseCases;
use yjs_collaboration_server::ws::WsSession;

use base64::engine::general_purpose::STANDARD;
use base64::Engine;

use yrs::updates::decoder::Decode;
use yrs::updates::encoder::Encode;
use yrs::{Doc, ReadTxn, StateVector, Text, Transact};

fn base64_encode(bytes: &[u8]) -> String {
    STANDARD.encode(bytes)
}

fn base64_decode(text: &str) -> Option<Vec<u8>> {
    STANDARD.decode(text.as_bytes()).ok()
}

fn make_update(content: &str) -> Vec<u8> {
    let doc = Doc::new();
    let text = doc.get_or_insert_text("content");
    {
        let mut txn = doc.transact_mut();
        text.insert(&mut txn, 0, content);
    }
    let txn = doc.transact();
    txn.encode_state_as_update_v1(&StateVector::default())
}

fn fresh_use_cases() -> DocumentUseCases {
    DocumentUseCases::new(InMemoryDocumentRepository::new())
}

fn frame(doc_id: &str, message_type: &str, update: Option<String>) -> ClientMessage {
    ClientMessage {
        doc_id: String::from(doc_id),
        message_type: String::from(message_type),
        data: None,
        update,
    }
}

#[test]
fn library_base64_matches_standard_encoding() {
    // The sync reply's update field must be exactly the standard base64 of
    // the state vector the service reports, not the bytes passed through.
    let mut uc = fresh_use_cases();
    let doc_id = String::from("doc1");
    let payload = make_update("hello");
    uc.handle_update_request(&doc_id, &base64_encode(&payload), &String::from("c1"))
        .unwrap();
    let (msg, _sub) = uc.handle_sync_request(&doc_id, &String::from("c2"));
    let field = msg.update.expect("sv frame carries base64");
    assert_ne!(field.as_bytes(), base64_decode(&field).unwrap().as_slice());
    assert!(StateVector::decode_v1(&base64_decode(&field).unwrap()).is_ok());
    assert_eq!(base64_encode(&base64_decode(&field).unwrap()), field);
}

#[test]
fn sync_request_replies_with_state_vector_frame() {
    let mut uc = fresh_use_cases();
    let (msg, _sub) = uc.handle_sync_request(&String::from("doc1"), &String::from("c1"));
    assert_eq!(msg.message_type, "sv");
    assert!(msg.data.is_none());
    let sv = base64_decode(msg.update.expect("sv frame carries base64").as_str()).unwrap();
    assert!(StateVector::decode_v1(&sv).is_ok());
}

#[test]
fn update_request_applies_and_rejects() {
    let mut uc = fresh_use_cases();
    let doc_id = String::from("doc1");
    let origin = String::from("c1");

    let good = base64_encode(&make_update("hi"));
    assert_eq!(uc.handle_update_request(&doc_id, &good, &origin), Ok(()));

    assert_eq!(
        uc.handle_update_request(&doc_id, &String::from("!!!"), &origin),
        Err(ServiceError::InvalidBase64)
    );

    let garbage = base64_encode(&[0xde, 0xad, 0xbe, 0xef]);
    assert_eq!(
        uc.handle_update_request(&doc_id, &garbage, &origin),
        Err(ServiceError::DecodeError)
    );
}

#[test]
fn state_vector_request_returns_missing_updates() {
    let mut uc = fresh_use_cases();
    let doc_id = String::from("doc1");
    let origin = String::from("c1");
    let payload = make_update("content here");
    let b64 = base64_encode(&payload);
    uc.handle_update_request(&doc_id, &b64, &origin).unwrap();

    // A remote at the empty state is missing everything.
    let empty_sv = base64_encode(&Doc::new().transact().state_vector().encode_v1());
    let reply = uc
        .handle_state_vector_request(&doc_id, &empty_sv)
        .expect("valid state vector")
        .expect("something is missing");
    assert_eq!(reply.message_type, "update");
    assert!(reply.update.is_some());

    // An up-to-date remote gets nothing, and nothing is broadcast.
    let (sync_msg, _sub) = uc.handle_sync_request(&doc_id, &String::from("c2"));
    let current_sv = sync_msg.update.unwrap();
    assert!(matches!(uc.handle_state_vector_request(&doc_id, &current_sv), Ok(None)));

    // A string that is not base64 is rejected outright.
    assert!(matches!(
        uc.handle_state_vector_request(&doc_id, &String::from("%%%")),
        Err(ServiceError::InvalidBase64)
    ));
}

#[test]
fn ws_session_sync_update_and_poll() {
    let mut uc = fresh_use_cases();

    // B attaches first and will therefore see A's update.
    let mut session_b = WsSession::new(String::from("client-b"));
    let reply_b = session_b
        .handle_frame(&mut uc, &frame("doc1", "sync", None))
        .expect("sync replies");
    assert_eq!(reply_b.message_type, "sv");

    // A attaches and sends an update.
    let mut session_a = WsSession::new(String::from("client-a"));
    session_a.handle_frame(&mut uc, &frame("doc1", "sync", None)).unwrap();
    let payload = make_update("over the wire");
    let reply = session_a.handle_frame(
        &mut uc,
        &frame("doc1", "update", Some(base64_encode(&payload))),
    );
    assert!(reply.is_none());

    // A's own poll yields nothing (no echo); B's yields the update once.
    assert!(session_a.poll_notification(&uc).is_none());
    let note = session_b.poll_notification(&uc).expect("b sees a's update");
    assert_eq!(note.message_type, "update");
    assert_eq!(base64_decode(note.update.unwrap().as_str()).unwrap(), payload);
    assert!(session_b.poll_notification(&uc).is_none());
}

#[test]
fn ws_session_sv_frame_and_unknown_type() {
    let mut uc = fresh_use_cases();
    let mut session = WsSession::new(String::from("c"));
    session.handle_frame(&mut uc, &frame("doc1", "sync", None)).unwrap();
    let payload = make_update("data");
    session.handle_frame(&mut uc, &frame("doc1", "update", Some(base64_encode(&payload))));

    // A stale remote asking via "sv" gets an update frame back.
    let empty_sv = base64_encode(&Doc::new().transact().state_vector().encode_v1());
    let reply = session
        .handle_frame(&mut uc, &frame("doc1", "sv", Some(empty_sv)))
        .expect("missing updates exist");
    assert_eq!(reply.message_type, "update");

    // Unknown frame types are ignored.
    assert!(session.handle_frame(&mut uc, &frame("doc1", "nonsense", None)).is_none());

    // An "update" frame without a payload is ignored.
    assert!(session.handle_frame(&mut uc, &frame("doc1", "update", None)).is_none());
}

#[test]
fn config_defaults_and_server_selection() {
    let config = AppConfig::default();
    assert_eq!(config.http_addr, "[::]:8080");
    assert_eq!(config.grpc_addr, "[::]:8081");
    assert_eq!(config.log_level, "info");
    assert_eq!(config.servers_to_start(), Ok((true, true)));

    let none_enabled = AppConfig { enable_http: false, enable_grpc: false, ..AppConfig::default() };
    assert_eq!(none_enabled.servers_to_start(), Err(ConfigError::NoServersEnabled));
}
