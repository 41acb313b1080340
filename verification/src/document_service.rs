//! Document sessions and the document service built on the registry.
//!
//! A session pairs one collaborative document with its broadcast channel:
//! every successful apply publishes exactly one notification, and the
//! channel's receivers deliver it to every other subscribed session.  The
//! service wraps the registry with the synchronization use cases: establish
//! a sync session, apply updates, compute missing updates, and the
//! administrative operations.

use vstd::prelude::*;

use crate::broadcast::{ChannelView, NoteView, Subscription, UpdateChannel, UpdateNotification};
use crate::codec::{base64_decode, base64_decoding, base64_encode, base64_encoding, is_base64};
use crate::crdt::{is_diff_of, is_full_update_of, is_state_vector_of, same_state_vector,
    update_applies, valid_state_vector, wf_update, CollaborativeDocument, DocError, DocView};
use crate::repository::{applied_post, contains_id, first_match, fresh_session_view,
    get_or_create_post, recv_post_at, removed_post, session_applied, DocEntry,
    InMemoryDocumentRepository};

verus! {

/// Bound on how many update notifications one document buffers for slow
/// subscribers; older ones are dropped, oldest first.
pub const CHANNEL_CAPACITY: usize = 1024;

/// Mathematical image of a session: the document's state and the
/// broadcast channel.
#[verifier::ext_equal]
pub struct SessionView {
    pub doc: DocView,
    pub chan: ChannelView,
}

/// One document's session: the state container plus the broadcast channel
/// that fans its updates out to subscribers.
pub struct SingleDocumentService {
    document: CollaborativeDocument,
    channel: UpdateChannel,
}

impl View for SingleDocumentService {
    type V = SessionView;

    closed spec fn view(&self) -> SessionView {
        SessionView { doc: self.document@, chan: self.channel@ }
    }
}

impl SingleDocumentService {
    /// The session's channel and document are internally consistent.
    pub closed spec fn wf(self) -> bool {
        self.channel.wf() && self.document.wf()
    }

    /// Creates a session holding an empty document and an empty channel.
    pub fn new() -> (r: Self)
        ensures
            r.wf(),
            r@.doc.applied == Set::<Seq<u8>>::empty(),
            r@.chan.sent == Seq::<NoteView>::empty(),
            r@.chan.cap == CHANNEL_CAPACITY as nat,
    {
        SingleDocumentService {
            document: CollaborativeDocument::new(),
            channel: UpdateChannel::new(CHANNEL_CAPACITY),
        }
    }

    /// The document's current encoded state vector: the one encoding this
    /// session holds and hands out consistently.
    pub fn get_state_vector(&self) -> (r: Vec<u8>)
        requires
            self.wf(),
        ensures
            r@ == self@.doc.sv,
            is_state_vector_of(self@.doc.applied, r@),
            valid_state_vector(r@),
    {
        self.document.get_state_vector()
    }

    /// The encoded update that reproduces the whole document on an empty
    /// replica.
    pub fn get_full_update(&self) -> (r: Vec<u8>)
        ensures
            is_full_update_of(self@.doc.applied, r@),
    {
        self.document.get_full_update()
    }

    /// How many notifications were ever published for this document.
    pub fn notification_count(&self) -> (r: usize)
        requires
            self.wf(),
        ensures
            r == self@.chan.sent.len(),
    {
        self.channel.count()
    }

    /// Merges an update into the document and, exactly when the merge
    /// succeeds, publishes one notification carrying the payload and its
    /// origin.  Merging is idempotent: an already-merged payload succeeds
    /// again.  A payload that does not decode changes nothing; no failure
    /// publishes anything.
    pub fn apply_update(&mut self, update: &[u8], origin: &String) -> (r: Result<(), DocError>)
        requires
            old(self).wf(),
            old(self)@.chan.sent.len() < usize::MAX,
        ensures
            final(self).wf(),
            final(self)@.chan.cap == old(self)@.chan.cap,
            r is Ok <==> update_applies(old(self)@.doc.applied, update@),
            old(self)@.doc.applied.contains(update@) ==> r is Ok,
            r is Ok ==> final(self)@.doc.applied == old(self)@.doc.applied.insert(update@)
                && final(self)@.chan.sent == old(self)@.chan.sent.push(
                NoteView { update: update@, source: origin@ },
            ),
            r is Err ==> final(self)@.chan == old(self)@.chan
                && r == Err::<(), DocError>(DocError::DecodeError),
            !wf_update(update@) && r is Err ==> final(self)@.doc == old(self)@.doc,
    {
        match self.document.apply_update(update) {
            Ok(_) => {
                let note = UpdateNotification {
                    update: crate::crdt::clone_bytes(update),
                    source: origin.clone(),
                };
                self.channel.publish(note);
                Ok(())
            },
            Err(_) => Err(DocError::DecodeError),
        }
    }

    /// The update the remote replica at `client_state` is missing: empty
    /// exactly when that replica's vector equals this document's.
    pub fn get_missing_updates(&self, client_state: &[u8]) -> (r: Result<Vec<u8>, DocError>)
        requires
            self.wf(),
        ensures
            r is Ok <==> valid_state_vector(client_state@),
            r matches Ok(d) ==> if same_state_vector(client_state@, self@.doc.sv) {
                d@ == Seq::<u8>::empty()
            } else {
                is_diff_of(self@.doc.applied, client_state@, d@) && d@.len() > 0
            },
            r is Err ==> r == Err::<Vec<u8>, DocError>(DocError::DecodeError),
    {
        self.document.get_missing_updates(client_state)
    }

    /// A new subscription for `client`, positioned after everything already
    /// published: earlier updates are never replayed.
    pub fn subscribe(&self, client: &String) -> (r: Subscription)
        requires
            self.wf(),
        ensures
            r.spec_client() == client@,
            r.spec_cursor() == self@.chan.sent.len(),
    {
        self.channel.subscribe(client)
    }

    /// Delivers the next notification the subscription can observe, as the
    /// channel defines it: in publish order, never its own, and never one
    /// already dropped for lagging too far behind.
    pub fn recv(&self, sub: &mut Subscription) -> (r: Option<UpdateNotification>)
        requires
            self.wf(),
        ensures
            final(sub).spec_client() == old(sub).spec_client(),
            ({
                let c = self@.chan;
                let eff = crate::broadcast::int_max(old(sub).spec_cursor(), c.start());
                match crate::broadcast::next_visible(c, old(sub).spec_client(), eff) {
                    Some(i) => {
                        &&& r matches Some(n) && n@ == c.sent[i]
                        &&& final(sub).spec_cursor() == i + 1
                    },
                    None => {
                        &&& r is None
                        &&& final(sub).spec_cursor() == crate::broadcast::int_max(
                            eff,
                            c.sent.len() as int,
                        )
                    },
                }
            }),
            r matches Some(n) ==> n@.source != old(sub).spec_client(),
    {
        self.channel.recv(sub)
    }
}

impl Default for SingleDocumentService {
    /// A fresh session, as `new` makes it.
    fn default() -> (r: Self)
        ensures
            r.wf(),
            r@.doc.applied == Set::<Seq<u8>>::empty(),
            r@.chan.sent == Seq::<NoteView>::empty(),
            r@.chan.cap == CHANNEL_CAPACITY as nat,
    {
        SingleDocumentService::new()
    }
}

/// Response to a synchronization request: the update payload the client is
/// missing, already transport-encoded when present, and the server's state
/// vector.
pub struct SyncResponse {
    /// The encoded update to apply, absent when nothing is missing.
    pub update: Option<String>,
    /// Binary state vector of the document.
    pub state_vector: Vec<u8>,
}

/// Errors the document service reports to its callers, by cause.
#[derive(Clone, Copy, PartialEq, Eq, Structural, Debug)]
pub enum ServiceError {
    /// The document id is empty or longer than the registry accepts.
    InvalidDocumentId,
    /// A document with this id already exists.
    AlreadyExists,
    /// No document with this id exists.
    NotFound,
    /// A transport string that should carry base64 does not.
    InvalidBase64,
    /// A binary payload that does not decode or merge.
    DecodeError,
    /// A document operation arrived before the session attached to a
    /// document by completing a sync handshake.
    NotAttached,
}

/// The longest document id the service accepts, in characters.
pub const MAX_DOCUMENT_ID_LEN: usize = 255;

/// Domain service over the registry: the synchronization protocol's
/// operations on documents, plus the administrative ones.
pub struct DocumentService {
    document_repository: InMemoryDocumentRepository,
}

impl View for DocumentService {
    type V = Seq<DocEntry>;

    closed spec fn view(&self) -> Seq<DocEntry> {
        self.document_repository@
    }
}

impl DocumentService {
    /// The underlying registry is well formed.
    pub open spec fn wf(self) -> bool {
        self.repo().wf()
    }

    /// The registry this service works on.
    pub closed spec fn repo(self) -> InMemoryDocumentRepository {
        self.document_repository
    }

    /// Creates a document service over the given repository.
    pub fn new(document_repository: InMemoryDocumentRepository) -> (r: Self)
        requires
            document_repository.wf(),
        ensures
            r.wf(),
            r@ == document_repository@,
    {
        DocumentService { document_repository }
    }

    /// Establishes a synchronization session: the document is created if
    /// absent, a subscription for `client` is taken out, and the current
    /// state vector is read — the subscription is created first, so no
    /// update published after the snapshot can be missed.
    pub fn establish_sync_session(&mut self, doc_id: &String, client: &String) -> (r: (
        Vec<u8>,
        Subscription,
    ))
        requires
            old(self).wf(),
            old(self)@.len() < usize::MAX,
        ensures
            final(self).wf(),
            exists|h: int|
                #[trigger] sync_session_post(old(self)@, final(self)@, doc_id@, h, r.0@, client@, r.1),
    {
        let h = self.document_repository.get_or_create(doc_id);
        let receiver = self.document_repository.subscribe_at(h, client);
        let state_vector = self.document_repository.state_vector_at(h);
        let r = (state_vector, receiver);
        proof {
            assert(sync_session_post(old(self)@, self@, doc_id@, h as int, r.0@, client@, r.1));
        }
        r
    }

    /// Applies a binary update to the document, creating it if absent;
    /// exactly on success one notification is published to the document's
    /// subscribers.
    pub fn apply_document_update(&mut self, doc_id: &String, update_data: &[u8], origin: &String)
        -> (r: Result<(), ServiceError>)
        requires
            old(self).wf(),
            old(self)@.len() < usize::MAX,
            doc_chan_len(old(self)@, doc_id@) < usize::MAX,
        ensures
            final(self).wf(),
            applied_post(old(self)@, final(self)@, doc_id@, update_data@, origin@, r is Ok),
            r is Err ==> r == Err::<(), ServiceError>(ServiceError::DecodeError),
    {
        let h = self.document_repository.get_or_create(doc_id);
        proof {
            if contains_id(old(self)@, doc_id@) {
                assert(first_match(old(self)@, doc_id@, h as int));
                lemma_doc_chan_len_at(old(self)@, doc_id@, h as int);
            }
        }
        let ghost mid = self@;
        let r = match self.document_repository.apply_update_at(h, update_data, origin) {
            Ok(_) => Ok(()),
            Err(_) => Err(ServiceError::DecodeError),
        };
        proof {
            if contains_id(old(self)@, doc_id@) {
                assert(first_match(old(self)@, doc_id@, h as int));
            } else {
                assert(self@.last() == self@[h as int]);
                let sv0 = mid[h as int].session@.doc.sv;
                assert(fresh_session_view(sv0) =~~= mid[h as int].session@);
                assert(session_applied(
                    fresh_session_view(sv0),
                    self@[h as int].session@,
                    update_data@,
                    origin@,
                    r is Ok,
                ));
            }
        }
        r
    }

    /// Computes the updates the client at `client_state_vector` is missing
    /// from the document, creating the document if absent: `None` when the
    /// client is already up to date, the payload otherwise.
    pub fn compute_missing_updates(&mut self, doc_id: &String, client_state_vector: &[u8]) -> (r:
        Result<Option<Vec<u8>>, ServiceError>)
        requires
            old(self).wf(),
            old(self)@.len() < usize::MAX,
        ensures
            final(self).wf(),
            r is Ok <==> valid_state_vector(client_state_vector@),
            r is Err ==> r == Err::<Option<Vec<u8>>, ServiceError>(ServiceError::DecodeError),
            exists|h: int| missing_updates_post(old(self)@, final(self)@, doc_id@, h,
                client_state_vector@, r),
    {
        let h = self.document_repository.get_or_create(doc_id);
        let r = match self.document_repository.missing_updates_at(h, client_state_vector) {
            Ok(d) => {
                if d.len() == 0 {
                    Ok(None)
                } else {
                    Ok(Some(d))
                }
            },
            Err(_) => Err(ServiceError::DecodeError),
        };
        proof {
            assert(missing_updates_post(
                old(self)@,
                self@,
                doc_id@,
                h as int,
                client_state_vector@,
                r,
            ));
        }
        r
    }

    /// The current state vector of the document, creating it if absent.
    pub fn get_document_state_vector(&mut self, doc_id: &String) -> (r: Vec<u8>)
        requires
            old(self).wf(),
            old(self)@.len() < usize::MAX,
        ensures
            final(self).wf(),
            exists|h: int| state_vector_post(old(self)@, final(self)@, doc_id@, h, r@),
    {
        let h = self.document_repository.get_or_create(doc_id);
        let r = self.document_repository.state_vector_at(h);
        proof {
            assert(state_vector_post(old(self)@, self@, doc_id@, h as int, r@));
        }
        r
    }

    /// A subscription to the document's updates for `client`, creating the
    /// document if absent.
    pub fn subscribe_to_document(&mut self, doc_id: &String, client: &String) -> (r: Subscription)
        requires
            old(self).wf(),
            old(self)@.len() < usize::MAX,
        ensures
            final(self).wf(),
            exists|h: int| subscription_post(old(self)@, final(self)@, doc_id@, h, client@, r),
    {
        let h = self.document_repository.get_or_create(doc_id);
        let r = self.document_repository.subscribe_at(h, client);
        proof {
            assert(subscription_post(old(self)@, self@, doc_id@, h as int, client@, r));
        }
        r
    }

    /// Delivers the next pending notification of the document to the given
    /// subscription; a document that does not exist has none.  The second
    /// component is the (ghost) index of the document's registry entry.
    pub fn recv_notification(&self, doc_id: &String, sub: &mut Subscription) -> (r: (
        Option<UpdateNotification>,
        Ghost<int>,
    ))
        requires
            self.wf(),
        ensures
            final(sub).spec_client() == old(sub).spec_client(),
            !contains_id(self@, doc_id@) ==> r.0 is None && *final(sub) == *old(sub),
            r.0 matches Some(n) ==> n@.source != old(sub).spec_client(),
            contains_id(self@, doc_id@) ==> first_match(self@, doc_id@, r.1@) && recv_post_at(
                self@,
                r.1@,
                *old(sub),
                *final(sub),
                r.0,
            ),
    {
        match self.document_repository.find_index(doc_id) {
            Some(h) => {
                let rn = self.document_repository.recv_at(h, sub);
                (rn, Ghost(h as int))
            },
            None => (None, Ghost(0)),
        }
    }

    /// Answers one synchronization request against a raw remote state
    /// vector: the updates the remote is missing (everything, described
    /// from the empty base, when no remote vector is supplied) together
    /// with this document's own state vector.
    pub fn sync_snapshot(&mut self, doc_id: &String, remote: &[u8]) -> (r: Result<
        (Vec<u8>, Vec<u8>),
        ServiceError,
    >)
        requires
            old(self).wf(),
            old(self)@.len() < usize::MAX,
        ensures
            final(self).wf(),
            exists|h: int|
                #[trigger] sync_snapshot_post(old(self)@, final(self)@, doc_id@, h, remote@, r),
    {
        let h = self.document_repository.get_or_create(doc_id);
        let sv = self.document_repository.state_vector_at(h);
        let r = if remote.len() == 0 {
            Ok((self.document_repository.full_update_at(h), sv))
        } else {
            match self.document_repository.missing_updates_at(h, remote) {
                Ok(d) => Ok((d, sv)),
                Err(_) => Err(ServiceError::DecodeError),
            }
        };
        proof {
            assert(sync_snapshot_post(old(self)@, self@, doc_id@, h as int, remote@, r));
        }
        r
    }

    /// How many update notifications the document has ever published; zero
    /// when no such document exists.
    pub fn notification_count(&self, doc_id: &String) -> (r: usize)
        requires
            self.wf(),
        ensures
            r == doc_chan_len(self@, doc_id@),
    {
        match self.document_repository.find_index(doc_id) {
            Some(h) => {
                proof {
                    lemma_doc_chan_len_at(self@, doc_id@, h as int);
                }
                self.document_repository.notification_count_at(h)
            },
            None => {
                proof {
                    lemma_doc_chan_len_absent(self@, doc_id@);
                }
                0
            },
        }
    }

    /// Creates a new document after validating the id: a non-empty id of at
    /// most `MAX_DOCUMENT_ID_LEN` characters that is not yet taken.
    pub fn create_new_document(&mut self, doc_id: &String) -> (r: Result<(), ServiceError>)
        requires
            old(self).wf(),
            old(self)@.len() < usize::MAX,
        ensures
            final(self).wf(),
            r is Ok <==> doc_id@.len() > 0 && doc_id@.len() <= MAX_DOCUMENT_ID_LEN as nat
                && !contains_id(old(self)@, doc_id@),
            r is Ok ==> get_or_create_post(old(self)@, final(self)@, doc_id@, old(self)@.len() as int),
            r is Err ==> final(self)@ == old(self)@,
            (doc_id@.len() == 0 || doc_id@.len() > MAX_DOCUMENT_ID_LEN as nat) ==> r == Err::<
                (),
                ServiceError,
            >(ServiceError::InvalidDocumentId),
            (doc_id@.len() > 0 && doc_id@.len() <= MAX_DOCUMENT_ID_LEN as nat && contains_id(
                old(self)@,
                doc_id@,
            )) ==> r == Err::<(), ServiceError>(ServiceError::AlreadyExists),
    {
        let len = doc_id.as_str().unicode_len();
        if len == 0 {
            return Err(ServiceError::InvalidDocumentId);
        }
        if len > MAX_DOCUMENT_ID_LEN {
            return Err(ServiceError::InvalidDocumentId);
        }
        match self.document_repository.create_document(doc_id) {
            Ok(_) => Ok(()),
            Err(_) => Err(ServiceError::AlreadyExists),
        }
    }

    /// Deletes a document, reporting `NotFound` when no such document
    /// exists.  The service addresses documents by id on every operation,
    /// so later calls simply recreate the id if asked to.
    pub fn delete_document_with_cleanup(&mut self, doc_id: &String) -> (r: Result<(), ServiceError>)
        requires
            old(self).wf(),
        ensures
            final(self).wf(),
            r is Ok <==> contains_id(old(self)@, doc_id@),
            r is Ok ==> removed_post(old(self)@, final(self)@, doc_id@),
            r is Err ==> final(self)@ == old(self)@ && r == Err::<(), ServiceError>(
                ServiceError::NotFound,
            ),
    {
        match self.document_repository.delete_document(doc_id) {
            Ok(_) => Ok(()),
            Err(_) => Err(ServiceError::NotFound),
        }
    }

    /// How many documents the registry holds, and their ids.
    pub fn get_repository_stats(&self) -> (r: (usize, Vec<String>))
        ensures
            r.0 == self@.len(),
            r.1@.len() == self@.len(),
            forall|i: int| 0 <= i < self@.len() ==> r.1@[i]@ == self@[i].id@,
    {
        let count = self.document_repository.count();
        let documents = self.document_repository.list_documents();
        (count, documents)
    }

    /// Handles a client's initial synchronization request: the response
    /// carries the document's state vector and no update payload, and the
    /// returned subscription sees everything published from now on.
    pub fn handle_sync_request(&mut self, doc_id: &String, client: &String) -> (r: (
        SyncResponse,
        Subscription,
    ))
        requires
            old(self).wf(),
            old(self)@.len() < usize::MAX,
        ensures
            final(self).wf(),
            r.0.update is None,
            exists|h: int|
                #[trigger] sync_session_post(
                    old(self)@,
                    final(self)@,
                    doc_id@,
                    h,
                    r.0.state_vector@,
                    client@,
                    r.1,
                ),
    {
        let (state_vector, receiver) = self.establish_sync_session(doc_id, client);
        let ghost svv = state_vector@;
        let ghost recv_g = receiver;
        let response = SyncResponse { update: None, state_vector };
        let r = (response, receiver);
        proof {
            let h = choose|h: int|
                sync_session_post(old(self)@, self@, doc_id@, h, svv, client@, recv_g);
            assert(sync_session_post(
                old(self)@,
                self@,
                doc_id@,
                h,
                r.0.state_vector@,
                client@,
                r.1,
            ));
        }
        r
    }

    /// Handles a base64-encoded update from a client: decodes it and
    /// applies it as `apply_document_update` does.
    pub fn handle_update_request(&mut self, doc_id: &String, update_base64: &String, origin:
        &String) -> (r: Result<(), ServiceError>)
        requires
            old(self).wf(),
            old(self)@.len() < usize::MAX,
            doc_chan_len(old(self)@, doc_id@) < usize::MAX,
        ensures
            final(self).wf(),
            !is_base64(update_base64@) ==> r == Err::<(), ServiceError>(ServiceError::InvalidBase64)
                && final(self)@ == old(self)@,
            is_base64(update_base64@) ==> applied_post(
                old(self)@,
                final(self)@,
                doc_id@,
                base64_decoding(update_base64@),
                origin@,
                r is Ok,
            ) && (r is Err ==> r == Err::<(), ServiceError>(ServiceError::DecodeError)),
    {
        match base64_decode(update_base64) {
            Some(update_data) => {
                proof {
                    crate::codec::lemma_base64_decoding_unique(update_base64@, update_data@);
                }
                self.apply_document_update(doc_id, update_data.as_slice(), origin)
            },
            None => Err(ServiceError::InvalidBase64),
        }
    }

    /// Handles a synchronization step against a base64-encoded client state
    /// vector: the response's update payload is the base64 of what the
    /// client is missing, absent when it is up to date.
    pub fn handle_sync_step(&mut self, doc_id: &String, state_vector_base64: &String, client:
        &String) -> (r: Result<(SyncResponse, Subscription), ServiceError>)
        requires
            old(self).wf(),
            old(self)@.len() < usize::MAX,
        ensures
            final(self).wf(),
            !is_base64(state_vector_base64@) ==> r == Err::<
                (SyncResponse, Subscription),
                ServiceError,
            >(ServiceError::InvalidBase64) && final(self)@ == old(self)@,
            is_base64(state_vector_base64@) ==> {
                let svb = base64_decoding(state_vector_base64@);
                &&& (r is Ok <==> valid_state_vector(svb))
                &&& (!valid_state_vector(svb) ==> r == Err::<
                    (SyncResponse, Subscription),
                    ServiceError,
                >(ServiceError::DecodeError))
                &&& exists|h: int|
                    sync_step_post(old(self)@, final(self)@, doc_id@, h, svb, client@, r)
            },
    {
        let state_vector = match base64_decode(state_vector_base64) {
            Some(sv) => sv,
            None => {
                return Err(ServiceError::InvalidBase64);
            },
        };
        proof {
            crate::codec::lemma_base64_decoding_unique(state_vector_base64@, state_vector@);
        }
        let h = self.document_repository.get_or_create(doc_id);
        let receiver = self.document_repository.subscribe_at(h, client);
        let own_sv = self.document_repository.state_vector_at(h);
        let r = match self.document_repository.missing_updates_at(h, state_vector.as_slice()) {
            Ok(d) => {
                let update = if d.len() == 0 {
                    None
                } else {
                    Some(base64_encode(d.as_slice()))
                };
                let response = SyncResponse { update, state_vector: own_sv };
                Ok((response, receiver))
            },
            Err(_) => Err(ServiceError::DecodeError),
        };
        proof {
            assert(sync_step_post(
                old(self)@,
                self@,
                doc_id@,
                h as int,
                state_vector@,
                client@,
                r,
            ));
        }
        r
    }

    /// Handles a binary update from a client, creating the document if
    /// absent and broadcasting on success.
    pub fn handle_binary_update(&mut self, doc_id: &String, update_data: &[u8], origin: &String)
        -> (r: Result<(), ServiceError>)
        requires
            old(self).wf(),
            old(self)@.len() < usize::MAX,
            doc_chan_len(old(self)@, doc_id@) < usize::MAX,
        ensures
            final(self).wf(),
            applied_post(old(self)@, final(self)@, doc_id@, update_data@, origin@, r is Ok),
            r is Err ==> r == Err::<(), ServiceError>(ServiceError::DecodeError),
    {
        self.apply_document_update(doc_id, update_data, origin)
    }
}

/// What establishing a sync session for `id` yields: the document's entry
/// at `h` (created fresh if absent), the state vector `sv` of that
/// document, and a subscription for `client` positioned at the end of the
/// entry's publish history.
pub open spec fn sync_session_post(
    before: Seq<DocEntry>,
    after: Seq<DocEntry>,
    id: Seq<char>,
    h: int,
    sv: Seq<u8>,
    client: Seq<char>,
    sub: Subscription,
) -> bool {
    &&& get_or_create_post(before, after, id, h)
    &&& sv == after[h].session@.doc.sv
    &&& is_state_vector_of(after[h].session@.doc.applied, sv)
    &&& valid_state_vector(sv)
    &&& sub.spec_client() == client
    &&& sub.spec_cursor() == after[h].session@.chan.sent.len()
}

/// What computing missing updates for `id` against `client_sv` yields:
/// `None` exactly when the client is up to date, otherwise the payload it
/// is missing.
pub open spec fn missing_updates_post(
    before: Seq<DocEntry>,
    after: Seq<DocEntry>,
    id: Seq<char>,
    h: int,
    client_sv: Seq<u8>,
    r: Result<Option<Vec<u8>>, ServiceError>,
) -> bool {
    &&& get_or_create_post(before, after, id, h)
    &&& r matches Ok(od) ==> match od {
        Some(v) => !same_state_vector(client_sv, after[h].session@.doc.sv) && is_diff_of(
            after[h].session@.doc.applied,
            client_sv,
            v@,
        ) && v@.len() > 0,
        None => same_state_vector(client_sv, after[h].session@.doc.sv),
    }
}

/// Reading the state vector of `id` creates the document if absent and
/// returns its encoded state vector.
pub open spec fn state_vector_post(
    before: Seq<DocEntry>,
    after: Seq<DocEntry>,
    id: Seq<char>,
    h: int,
    sv: Seq<u8>,
) -> bool {
    &&& get_or_create_post(before, after, id, h)
    &&& sv == after[h].session@.doc.sv
    &&& is_state_vector_of(after[h].session@.doc.applied, sv)
    &&& valid_state_vector(sv)
}

/// Subscribing to `id` creates the document if absent and returns a
/// subscription for `client` positioned after everything already
/// published.
pub open spec fn subscription_post(
    before: Seq<DocEntry>,
    after: Seq<DocEntry>,
    id: Seq<char>,
    h: int,
    client: Seq<char>,
    sub: Subscription,
) -> bool {
    &&& get_or_create_post(before, after, id, h)
    &&& sub.spec_client() == client
    &&& sub.spec_cursor() == after[h].session@.chan.sent.len()
}

/// What a sync step for `id` against the decoded client state vector
/// `svb` yields on success: a response whose update payload is the base64
/// of what the client is missing (absent when nothing is), an empty state
/// vector field, and a fresh subscription for `client`.
pub open spec fn sync_step_post(
    before: Seq<DocEntry>,
    after: Seq<DocEntry>,
    id: Seq<char>,
    h: int,
    svb: Seq<u8>,
    client: Seq<char>,
    r: Result<(SyncResponse, Subscription), ServiceError>,
) -> bool {
    &&& get_or_create_post(before, after, id, h)
    &&& r matches Ok(p) ==> {
        &&& p.0.state_vector@ == after[h].session@.doc.sv
        &&& (p.0.update is None <==> same_state_vector(svb, after[h].session@.doc.sv))
        &&& (p.0.update matches Some(u) ==> exists|d: Seq<u8>|
            {
                &&& #[trigger] is_diff_of(after[h].session@.doc.applied, svb, d)
                &&& d.len() > 0
                &&& u@ == base64_encoding(d)
            })
        &&& p.1.spec_client() == client
        &&& p.1.spec_cursor() == after[h].session@.chan.sent.len()
    }
}

/// How many notifications the document `id` has published; zero when no
/// such document exists yet.
pub open spec fn doc_chan_len(entries: Seq<DocEntry>, id: Seq<char>) -> int
    decreases entries.len(),
{
    if entries.len() == 0 {
        0
    } else if entries[0].id@ == id {
        entries[0].session@.chan.sent.len() as int
    } else {
        doc_chan_len(entries.drop_first(), id)
    }
}

/// What answering one raw synchronization request yields: the document's
/// entry at `h` (created fresh if absent), and on success the pair of the
/// updates the remote at `remote` is missing — the whole document when no
/// remote vector was supplied — and the document's own state vector.
pub open spec fn sync_snapshot_post(
    before: Seq<DocEntry>,
    after: Seq<DocEntry>,
    id: Seq<char>,
    h: int,
    remote: Seq<u8>,
    r: Result<(Vec<u8>, Vec<u8>), ServiceError>,
) -> bool {
    &&& get_or_create_post(before, after, id, h)
    &&& (r is Ok <==> (remote.len() == 0 || valid_state_vector(remote)))
    &&& (r is Err ==> r == Err::<(Vec<u8>, Vec<u8>), ServiceError>(ServiceError::DecodeError))
    &&& r matches Ok(p) ==> {
        &&& p.1@ == after[h].session@.doc.sv
        &&& is_state_vector_of(after[h].session@.doc.applied, p.1@)
        &&& if remote.len() == 0 {
            is_full_update_of(after[h].session@.doc.applied, p.0@)
        } else if same_state_vector(remote, after[h].session@.doc.sv) {
            p.0@ == Seq::<u8>::empty()
        } else {
            is_diff_of(after[h].session@.doc.applied, remote, p.0@) && p.0@.len() > 0
        }
    }
}

/// `doc_chan_len` reads the channel of the first entry matching the id.
pub proof fn lemma_doc_chan_len_at(entries: Seq<DocEntry>, id: Seq<char>, h: int)
    requires
        first_match(entries, id, h),
    ensures
        doc_chan_len(entries, id) == entries[h].session@.chan.sent.len(),
    decreases entries.len(),
{
    if h == 0 {
    } else {
        assert(first_match(entries.drop_first(), id, h - 1)) by {
            assert(forall|j: int|
                0 <= j < h - 1 ==> entries.drop_first()[j] == entries[j + 1]);
        }
        lemma_doc_chan_len_at(entries.drop_first(), id, h - 1);
    }
}

/// A document that is not in the registry has published nothing.
pub proof fn lemma_doc_chan_len_absent(entries: Seq<DocEntry>, id: Seq<char>)
    requires
        !contains_id(entries, id),
    ensures
        doc_chan_len(entries, id) == 0,
    decreases entries.len(),
{
    if entries.len() > 0 {
        assert(!contains_id(entries.drop_first(), id)) by {
            assert(forall|j: int|
                0 <= j < entries.drop_first().len() ==> entries.drop_first()[j]
                    == entries[j + 1]);
        }
        lemma_doc_chan_len_absent(entries.drop_first(), id);
    }
}

} // verus!
