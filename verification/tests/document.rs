//! Tests of the document container, the broadcast channel and the registry.

use yjs_collaboration_server::broadcast::{UpdateChannel, UpdateNotification};
use yjs_collaboration_server::crdt::CollaborativeDocument;
use yjs_collaboration_server::document_service::{DocumentService, ServiceError,
    SingleDocumentService};
use yjs_collaboration_server::factory::RepositoryFactory;
use yjs_collaboration_server::repository::InMemoryDocumentRepository;

use base64::engine::general_purpose::STANDARD;
use base64::Engine;

use yrs::updates::decoder::Decode;
use yrs::{Doc, GetString, ReadTxn, StateVector, Text, Transact};

/// A real update that inserts `content` into an empty document.
fn make_update(content: &str) -> Vec<u8> {
    let doc = Doc::new();
    let text = doc.get_or_insert_text("content");
    {
        let mut txn = doc.transact_mut();
        text.insert(&mut txn, 0, content);
    }
    let txn = doc.transact();
    txn.encode_state_as_update_v1(&StateVector::default())
}

/// The text a full-document update produces when applied to a fresh doc.
fn text_of_update(update: &[u8]) -> String {
    let doc = Doc::new();
    let text = doc.get_or_insert_text("content");
    {
        let mut txn = doc.transact_mut();
        let decoded = yrs::Update::decode_v1(update).expect("update must decode");
        txn.apply_update(decoded).expect("update must apply");
    }
    let txn = doc.transact();
    text.get_string(&txn)
}

#[test]
fn empty_document_state_vector_decodes() {
    let doc = CollaborativeDocument::new();
    let sv = doc.get_state_vector();
    assert!(StateVector::decode_v1(&sv).is_ok());
}

#[test]
fn apply_update_returns_new_state_vector() {
    let mut doc = CollaborativeDocument::new();
    let before = doc.get_state_vector();
    let update = make_update("hello");
    let after = doc.apply_update(&update).expect("well-formed update applies");
    assert_ne!(before, after);
    assert_eq!(after, doc.get_state_vector());
}

#[test]
fn malformed_update_is_rejected_and_state_unchanged() {
    let mut doc = CollaborativeDocument::new();
    let before = doc.get_state_vector();
    let r = doc.apply_update(&[0xff, 0x01, 0x02, 0x03]);
    assert!(r.is_err());
    assert_eq!(before, doc.get_state_vector());
}

#[test]
fn empty_diff_on_equal_vectors() {
    // An unmodified container owes an up-to-date remote an empty payload.
    let doc = CollaborativeDocument::new();
    let sv = doc.get_state_vector();
    let diff = doc.get_missing_updates(&sv).expect("own state vector decodes");
    assert_eq!(diff, Vec::<u8>::new());

    let mut changed = CollaborativeDocument::new();
    changed.apply_update(&make_update("x")).unwrap();
    let sv2 = changed.get_state_vector();
    assert_eq!(changed.get_missing_updates(&sv2).unwrap(), Vec::<u8>::new());
}

#[test]
fn diff_carries_missing_content() {
    let mut doc = CollaborativeDocument::new();
    doc.apply_update(&make_update("shared text")).unwrap();
    let empty_remote = CollaborativeDocument::new();
    let diff = doc
        .get_missing_updates(&empty_remote.get_state_vector())
        .expect("remote state vector decodes");
    assert!(!diff.is_empty());
    assert_eq!(text_of_update(&diff), "shared text");
}

#[test]
fn malformed_state_vector_is_rejected() {
    let doc = CollaborativeDocument::new();
    assert!(doc.get_missing_updates(&[0xff, 0xff, 0xff]).is_err());
}

#[test]
fn convergence_in_either_order() {
    // Applying U1 then U2, or U2 then U1, yields identical state vectors.
    let u1 = make_update("left");
    let u2 = make_update("right");

    let mut d12 = CollaborativeDocument::new();
    d12.apply_update(&u1).unwrap();
    d12.apply_update(&u2).unwrap();

    let mut d21 = CollaborativeDocument::new();
    d21.apply_update(&u2).unwrap();
    d21.apply_update(&u1).unwrap();

    let sv12 = StateVector::decode_v1(&d12.get_state_vector()).unwrap();
    let sv21 = StateVector::decode_v1(&d21.get_state_vector()).unwrap();
    assert_eq!(sv12, sv21);
}

#[test]
fn duplicate_delivery_is_idempotent() {
    let u = make_update("once");
    let mut once = CollaborativeDocument::new();
    once.apply_update(&u).unwrap();
    let mut twice = CollaborativeDocument::new();
    twice.apply_update(&u).unwrap();
    // Re-delivering an already-merged update still succeeds...
    twice.apply_update(&u).expect("redelivery is accepted");
    // ...and converges to the same logical state vector.
    let sv_once = StateVector::decode_v1(&once.get_state_vector()).unwrap();
    let sv_twice = StateVector::decode_v1(&twice.get_state_vector()).unwrap();
    assert_eq!(sv_once, sv_twice);
}

#[test]
fn no_echo_and_exactly_once_delivery() {
    let mut session = SingleDocumentService::new();
    let a = String::from("client-a");
    let b = String::from("client-b");
    let mut sub_a = session.subscribe(&a);
    let mut sub_b = session.subscribe(&b);

    let payload = make_update("from a");
    session.apply_update(&payload, &a).expect("update applies");

    // A never observes its own notification.
    assert!(session.recv(&mut sub_a).is_none());

    // B observes it exactly once, with the right payload and origin.
    let n = session.recv(&mut sub_b).expect("b sees the update");
    assert_eq!(n.update, payload);
    assert_eq!(n.source, "client-a");
    assert!(session.recv(&mut sub_b).is_none());
}

#[test]
fn late_subscriber_sees_no_replay() {
    let mut session = SingleDocumentService::new();
    let a = String::from("a");
    session.apply_update(&make_update("early"), &a).unwrap();
    let mut sub = session.subscribe(&String::from("b"));
    assert!(session.recv(&mut sub).is_none());
}

#[test]
fn slow_subscriber_loses_oldest_first() {
    // Capacity 3; a subscriber that never drains misses the oldest two of
    // five notifications and still sees the newest three, in order.
    let mut chan = UpdateChannel::new(3);
    let writer = String::from("w");
    let mut sub = chan.subscribe(&String::from("r"));
    for i in 0..5u8 {
        chan.publish(UpdateNotification { update: vec![i], source: writer.clone() });
    }
    let seen: Vec<Vec<u8>> = std::iter::from_fn(|| chan.recv(&mut sub).map(|n| n.update))
        .collect();
    assert_eq!(seen, vec![vec![2u8], vec![3u8], vec![4u8]]);
}

#[test]
fn get_or_create_is_idempotent() {
    let mut repo = RepositoryFactory::create_document_repository();
    let id = String::from("doc");
    let h1 = repo.get_or_create(&id);
    let h2 = repo.get_or_create(&id);
    assert_eq!(h1, h2);
    assert_eq!(repo.count(), 1);

    // Both handles observe the same session state after a mutation.
    let update = make_update("shared");
    repo.apply_update_at(h1, &update, &String::from("a")).unwrap();
    assert_eq!(repo.notification_count_at(h2), 1);
}

#[test]
fn registry_administrative_operations() {
    let mut repo = InMemoryDocumentRepository::new();
    let id = String::from("a-doc");
    assert!(!repo.has_document(&id));
    assert_eq!(repo.count(), 0);

    let h = repo.create_document(&id).expect("fresh id");
    assert_eq!(h, 0);
    assert!(repo.has_document(&id));
    assert!(repo.create_document(&id).is_err());

    let ids = repo.list_documents();
    assert_eq!(ids, vec![String::from("a-doc")]);

    assert!(repo.delete_document(&id).is_ok());
    assert!(repo.delete_document(&id).is_err());
    assert_eq!(repo.count(), 0);

    repo.create_document(&id).unwrap();
    repo.clear().unwrap();
    assert_eq!(repo.count(), 0);
}

#[test]
fn create_new_document_validates_ids() {
    let mut svc = DocumentService::new(InMemoryDocumentRepository::new());
    assert_eq!(svc.create_new_document(&String::new()), Err(ServiceError::InvalidDocumentId));
    let long_id: String = std::iter::repeat('x').take(256).collect();
    assert_eq!(svc.create_new_document(&long_id), Err(ServiceError::InvalidDocumentId));
    let id = String::from("fine");
    assert_eq!(svc.create_new_document(&id), Ok(()));
    assert_eq!(svc.create_new_document(&id), Err(ServiceError::AlreadyExists));
}

#[test]
fn delete_missing_document_is_not_found() {
    let mut svc = DocumentService::new(InMemoryDocumentRepository::new());
    assert_eq!(
        svc.delete_document_with_cleanup(&String::from("nope")),
        Err(ServiceError::NotFound)
    );
}

#[test]
fn service_sync_and_stats() {
    let mut svc = DocumentService::new(InMemoryDocumentRepository::new());
    let id = String::from("doc1");
    let client = String::from("c1");
    let (sv, _sub) = svc.establish_sync_session(&id, &client);
    assert!(StateVector::decode_v1(&sv).is_ok());
    let (count, ids) = svc.get_repository_stats();
    assert_eq!(count, 1);
    assert_eq!(ids, vec![String::from("doc1")]);
}

#[test]
fn compute_missing_updates_none_when_up_to_date() {
    let mut svc = DocumentService::new(InMemoryDocumentRepository::new());
    let id = String::from("doc");
    let sv = svc.get_document_state_vector(&id);
    assert_eq!(svc.compute_missing_updates(&id, &sv), Ok(None));

    let origin = String::from("a");
    svc.apply_document_update(&id, &make_update("data"), &origin).unwrap();
    let stale = CollaborativeDocument::new().get_state_vector();
    let diff = svc.compute_missing_updates(&id, &stale).unwrap();
    assert!(diff.is_some());
}

#[test]
fn sync_step_reports_current_state_vector() {
    // The sync-step response carries the document's current state vector
    // alongside the diff.
    let mut svc = DocumentService::new(InMemoryDocumentRepository::new());
    let id = String::from("doc");
    let client = String::from("c");
    svc.apply_document_update(&id, &make_update("content"), &client).unwrap();
    let own_sv = svc.get_document_state_vector(&id);

    let stale = STANDARD.encode(CollaborativeDocument::new().get_state_vector());
    let (resp, _sub) = svc.handle_sync_step(&id, &stale, &client).expect("valid vector");
    assert_eq!(resp.state_vector, own_sv);
    assert!(resp.update.is_some());

    // An up-to-date remote gets no update payload but still the vector.
    let current = STANDARD.encode(&own_sv);
    let (resp2, _sub2) = svc.handle_sync_step(&id, &current, &client).expect("valid vector");
    assert!(resp2.update.is_none());
    assert_eq!(resp2.state_vector, own_sv);
}

#[test]
fn binary_update_decode_error() {
    let mut svc = DocumentService::new(InMemoryDocumentRepository::new());
    let id = String::from("doc");
    let origin = String::from("a");
    assert_eq!(
        svc.handle_binary_update(&id, &[0xde, 0xad], &origin),
        Err(ServiceError::DecodeError)
    );
}
