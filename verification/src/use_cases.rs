//! Application-level use cases for the text transport.
//!
//! These translate between the transport's base64-encoded frame fields and
//! the domain service's binary payloads, and package results as frames.

use vstd::prelude::*;

use crate::broadcast::Subscription;
use crate::codec::{base64_decoding, base64_encoding, is_base64};
use crate::crdt::{is_diff_of, same_state_vector, valid_state_vector};
use crate::document_service::{doc_chan_len, sync_session_post, DocumentService, ServiceError};
use crate::messages::ServerMessage;
use crate::repository::{applied_post, get_or_create_post, DocEntry, InMemoryDocumentRepository};

verus! {

/// What answering a state-vector request yields: the document's entry at
/// `h` (created fresh if absent) and, on success, either no message (the
/// client was up to date) or an "update" frame carrying the base64 of the
/// missing payload.
pub open spec fn sv_request_post(
    before: Seq<DocEntry>,
    after: Seq<DocEntry>,
    id: Seq<char>,
    h: int,
    svb: Seq<u8>,
    r: Result<Option<ServerMessage>, ServiceError>,
) -> bool {
    &&& get_or_create_post(before, after, id, h)
    &&& r matches Ok(om) ==> match om {
        Some(m) => {
            &&& !same_state_vector(svb, after[h].session@.doc.sv)
            &&& m.message_type@ == "update"@
            &&& m.data is None
            &&& (m.update matches Some(u) ==> exists|d: Seq<u8>|
                {
                    &&& #[trigger] is_diff_of(after[h].session@.doc.applied, svb, d)
                    &&& d.len() > 0
                    &&& u@ == base64_encoding(d)
                })
            &&& m.update is Some
        },
        None => same_state_vector(svb, after[h].session@.doc.sv),
    }
}

/// What answering an initial sync request yields: an "sv" frame carrying
/// the base64 of the document's state vector, and a subscription for the
/// requesting client.
pub open spec fn frame_sync_post(
    before: Seq<DocEntry>,
    after: Seq<DocEntry>,
    id: Seq<char>,
    h: int,
    client: Seq<char>,
    m: ServerMessage,
    sub: Subscription,
) -> bool {
    &&& get_or_create_post(before, after, id, h)
    &&& m.message_type@ == "sv"@
    &&& m.data is None
    &&& m.update matches Some(u) && u@ == base64_encoding(after[h].session@.doc.sv)
    &&& sub.spec_client() == client
    &&& sub.spec_cursor() == after[h].session@.chan.sent.len()
}

/// Use cases for collaborative document operations: the primary interface
/// between the text transport and the domain layer.
pub struct DocumentUseCases {
    document_service: DocumentService,
}

impl View for DocumentUseCases {
    type V = Seq<DocEntry>;

    closed spec fn view(&self) -> Seq<DocEntry> {
        self.document_service@
    }
}

impl DocumentUseCases {
    /// The underlying registry is well formed.
    pub open spec fn wf(self) -> bool {
        self.service().wf()
    }

    /// The domain service these use cases drive.
    pub closed spec fn service(self) -> DocumentService {
        self.document_service
    }

    /// Creates the use-case service over the given repository.
    pub fn new(document_repository: InMemoryDocumentRepository) -> (r: Self)
        requires
            document_repository.wf(),
        ensures
            r.wf(),
            r@ == document_repository@,
    {
        DocumentUseCases { document_service: DocumentService::new(document_repository) }
    }

    /// Creates the use-case service over a specific repository instance.
    pub fn with_repository(repository: InMemoryDocumentRepository) -> (r: Self)
        requires
            repository.wf(),
        ensures
            r.wf(),
            r@ == repository@,
    {
        Self::new(repository)
    }

    /// The domain service, for callers that need its operations directly.
    pub fn get_document_service(&self) -> (r: &DocumentService)
        ensures
            r == self.service(),
            r@ == self@,
            self.wf() ==> r.wf(),
    {
        &self.document_service
    }

    /// Handles a client's initial synchronization request: the reply is an
    /// "sv" frame carrying the document's state vector in base64, and the
    /// returned subscription sees every later update.
    pub fn handle_sync_request(&mut self, doc_id: &String, client: &String) -> (r: (
        ServerMessage,
        Subscription,
    ))
        requires
            old(self).wf(),
            old(self)@.len() < usize::MAX,
        ensures
            final(self).wf(),
            exists|h: int|
                #[trigger] frame_sync_post(
                    old(self)@,
                    final(self)@,
                    doc_id@,
                    h,
                    client@,
                    r.0,
                    r.1,
                ),
    {
        let (state_vector, receiver) = self.document_service.establish_sync_session(
            doc_id,
            client,
        );
        let ghost svv = state_vector@;
        let ghost recv_g = receiver;
        let response = ServerMessage {
            message_type: String::from_str("sv"),
            data: None,
            update: Some(crate::codec::base64_encode(state_vector.as_slice())),
        };
        let r = (response, receiver);
        proof {
            let h = choose|h: int|
                sync_session_post(old(self)@, self@, doc_id@, h, svv, client@, recv_g);
            assert(frame_sync_post(old(self)@, self@, doc_id@, h, client@, r.0, r.1));
        }
        r
    }

    /// Handles a base64-encoded update from a client: decodes it and
    /// applies it to the document, broadcasting exactly on success.
    pub fn handle_update_request(&mut self, doc_id: &String, update_base64: &String, origin:
        &String) -> (r: Result<(), ServiceError>)
        requires
            old(self).wf(),
            old(self)@.len() < usize::MAX,
            doc_chan_len(old(self)@, doc_id@) < usize::MAX,
        ensures
            final(self).wf(),
            !is_base64(update_base64@) ==> r == Err::<(), ServiceError>(ServiceError::InvalidBase64)
                && final(self)@ == old(self)@,
            is_base64(update_base64@) ==> applied_post(
                old(self)@,
                final(self)@,
                doc_id@,
                base64_decoding(update_base64@),
                origin@,
                r is Ok,
            ) && (r is Err ==> r == Err::<(), ServiceError>(ServiceError::DecodeError)),
    {
        self.document_service.handle_update_request(doc_id, update_base64, origin)
    }

    /// Handles a synchronization request against a base64-encoded client
    /// state vector: replies with an "update" frame of what the client is
    /// missing, or nothing when it is already up to date.
    pub fn handle_state_vector_request(&mut self, doc_id: &String, sv_base64: &String) -> (r:
        Result<Option<ServerMessage>, ServiceError>)
        requires
            old(self).wf(),
            old(self)@.len() < usize::MAX,
        ensures
            final(self).wf(),
            !is_base64(sv_base64@) ==> r == Err::<Option<ServerMessage>, ServiceError>(
                ServiceError::InvalidBase64,
            ) && final(self)@ == old(self)@,
            is_base64(sv_base64@) ==> {
                let svb = base64_decoding(sv_base64@);
                &&& (r is Ok <==> valid_state_vector(svb))
                &&& (!valid_state_vector(svb) ==> r == Err::<Option<ServerMessage>, ServiceError>(
                    ServiceError::DecodeError,
                ))
                &&& exists|h: int|
                    #[trigger] sv_request_post(old(self)@, final(self)@, doc_id@, h, svb, r)
            },
    {
        let sv = match crate::codec::base64_decode(sv_base64) {
            Some(sv) => sv,
            None => {
                return Err(ServiceError::InvalidBase64);
            },
        };
        proof {
            crate::codec::lemma_base64_decoding_unique(sv_base64@, sv@);
        }
        let ghost svv = sv@;
        let dr = self.document_service.compute_missing_updates(doc_id, sv.as_slice());
        let ghost dr_g = dr;
        let r = match dr {
            Ok(Some(update)) => Ok(
                Some(
                    ServerMessage {
                        message_type: String::from_str("update"),
                        data: None,
                        update: Some(crate::codec::base64_encode(update.as_slice())),
                    },
                ),
            ),
            Ok(None) => Ok(None),
            Err(_) => Err(ServiceError::DecodeError),
        };
        proof {
            let h = choose|h: int|
                crate::document_service::missing_updates_post(
                    old(self)@,
                    self@,
                    doc_id@,
                    h,
                    svv,
                    dr_g,
                );
            assert(sv_request_post(old(self)@, self@, doc_id@, h, svv, r));
        }
        r
    }

    /// Handles a binary update directly, without base64 decoding.
    pub fn handle_binary_update(&mut self, doc_id: &String, binary_data: &[u8], origin: &String)
        -> (r: Result<(), ServiceError>)
        requires
            old(self).wf(),
            old(self)@.len() < usize::MAX,
            doc_chan_len(old(self)@, doc_id@) < usize::MAX,
        ensures
            final(self).wf(),
            applied_post(old(self)@, final(self)@, doc_id@, binary_data@, origin@, r is Ok),
            r is Err ==> r == Err::<(), ServiceError>(ServiceError::DecodeError),
    {
        self.document_service.handle_binary_update(doc_id, binary_data, origin)
    }
}

} // verus!
