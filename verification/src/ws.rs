//! Per-connection session for the text transport.
//!
//! Each connection gets a fresh client id and holds at most one active
//! document with one subscription to its updates.  Each inbound frame is
//! handled by kind — "sync" attaches and answers with the state vector,
//! "update" merges a base64 payload, "sv" answers with the updates the
//! client is missing — and pending broadcast notifications are polled into
//! outbound "update" frames.  Socket reads and writes happen outside the
//! library; this type makes every protocol decision.

use vstd::prelude::*;

use crate::broadcast::Subscription;
use crate::codec::{base64_decoding, base64_encoding, is_base64};
use crate::crdt::{is_diff_of, same_state_vector, valid_state_vector};
use crate::document_service::doc_chan_len;
use crate::messages::{ClientMessage, ServerMessage};
use crate::repository::{applied_post, contains_id, first_match, get_or_create_post, recv_post_at,
    DocEntry};
use crate::use_cases::{frame_sync_post, sv_request_post, DocumentUseCases};

verus! {

/// What answering an "sv" frame yields: against the decoded client state
/// vector `svb`, either an "update" frame of what the client is missing,
/// or no reply when it is up to date or the vector does not decode.
pub open spec fn ws_sv_post(
    before: Seq<DocEntry>,
    after: Seq<DocEntry>,
    id: Seq<char>,
    h: int,
    svb: Seq<u8>,
    r: Option<ServerMessage>,
) -> bool {
    &&& get_or_create_post(before, after, id, h)
    &&& !valid_state_vector(svb) ==> r is None
    &&& valid_state_vector(svb) ==> {
        &&& same_state_vector(svb, after[h].session@.doc.sv) ==> r is None
        &&& !same_state_vector(svb, after[h].session@.doc.sv) ==> (r matches Some(m)
            && m.message_type@ == "update"@ && m.data is None && m.update is Some && (
        m.update matches Some(u) ==> exists|d: Seq<u8>|
            {
                &&& #[trigger] is_diff_of(after[h].session@.doc.applied, svb, d)
                &&& d.len() > 0
                &&& u@ == base64_encoding(d)
            }))
    }
}

/// The protocol state of one text-transport connection.
pub struct WsSession {
    client_id: String,
    active_document_id: Option<String>,
    subscription: Option<Subscription>,
}

impl WsSession {
    /// The subscription, when one is held, was taken out for this
    /// connection's own client id, so its no-echo filter is this client's.
    pub open spec fn wf(self) -> bool {
        match self.spec_sub() {
            Some(s) => s.spec_client() == self.spec_client(),
            None => true,
        }
    }

    /// This connection's session identifier.
    pub closed spec fn spec_client(self) -> Seq<char> {
        self.client_id@
    }

    /// The document this connection is attached to, if any.
    pub closed spec fn spec_active_doc(self) -> Option<Seq<char>> {
        match self.active_document_id {
            Some(d) => Some(d@),
            None => None,
        }
    }

    /// The connection's subscription to its active document, if any.
    pub closed spec fn spec_sub(self) -> Option<Subscription> {
        self.subscription
    }

    /// A fresh connection session: not attached to any document.
    pub fn new(client_id: String) -> (r: Self)
        ensures
            r.wf(),
            r.spec_client() == client_id@,
            r.spec_active_doc() is None,
            r.spec_sub() is None,
    {
        WsSession { client_id, active_document_id: None, subscription: None }
    }

    /// Handles one parsed inbound frame, by its type:
    /// - "sync" attaches this connection to the frame's document, answers
    ///   with an "sv" frame of its state vector, and subscribes;
    /// - "update" merges the frame's base64 payload into the document; a
    ///   payload that does not decode or merge is dropped without reply;
    /// - "sv" answers with an "update" frame of what the client is missing;
    /// - anything else is ignored.
    pub fn handle_frame(&mut self, uc: &mut DocumentUseCases, frame: &ClientMessage) -> (r: Option<
        ServerMessage,
    >)
        requires
            old(self).wf(),
            old(uc).wf(),
            old(uc)@.len() < usize::MAX,
            doc_chan_len(old(uc)@, frame.doc_id@) < usize::MAX,
        ensures
            final(self).wf(),
            final(uc).wf(),
            final(self).spec_client() == old(self).spec_client(),
            frame.message_type@ == "sync"@ ==> {
                &&& r matches Some(m) && final(self).spec_active_doc() == Some(frame.doc_id@)
                    && exists|h: int, s: Subscription|
                    {
                        &&& #[trigger] frame_sync_post(
                            old(uc)@,
                            final(uc)@,
                            frame.doc_id@,
                            h,
                            old(self).spec_client(),
                            m,
                            s,
                        )
                        &&& final(self).spec_sub() == Some(s)
                    }
            },
            frame.message_type@ == "update"@ ==> {
                &&& r is None
                &&& *final(self) == *old(self)
                &&& match frame.update {
                    Some(b64) => {
                        &&& !is_base64(b64@) ==> final(uc)@ == old(uc)@
                        &&& is_base64(b64@) ==> exists|ok: bool|
                            #[trigger] applied_post(
                                old(uc)@,
                                final(uc)@,
                                frame.doc_id@,
                                base64_decoding(b64@),
                                old(self).spec_client(),
                                ok,
                            )
                    },
                    None => final(uc)@ == old(uc)@,
                }
            },
            frame.message_type@ == "sv"@ ==> {
                &&& *final(self) == *old(self)
                &&& match frame.update {
                    Some(b64) => {
                        &&& !is_base64(b64@) ==> final(uc)@ == old(uc)@ && r is None
                        &&& is_base64(b64@) ==> exists|h: int|
                            #[trigger] ws_sv_post(
                                old(uc)@,
                                final(uc)@,
                                frame.doc_id@,
                                h,
                                base64_decoding(b64@),
                                r,
                            )
                    },
                    None => final(uc)@ == old(uc)@ && r is None,
                }
            },
            (frame.message_type@ != "sync"@ && frame.message_type@ != "update"@
                && frame.message_type@ != "sv"@) ==> final(uc)@ == old(uc)@ && r is None
                && *final(self) == *old(self),
    {
        proof {
            reveal_strlit("sync");
            reveal_strlit("update");
            reveal_strlit("sv");
            assert("sync"@.len() == 4 && "update"@.len() == 6 && "sv"@.len() == 2);
            assert("sync"@ != "update"@ && "sync"@ != "sv"@ && "update"@ != "sv"@);
        }
        if string_eq(&frame.message_type, "sync") {
            let rt = uc.handle_sync_request(&frame.doc_id, &self.client_id);
            let ghost resp_g = rt.0;
            let ghost recv_g = rt.1;
            let ghost client_g = self.client_id@;
            let (response, receiver) = rt;
            self.active_document_id = Some(frame.doc_id.clone());
            self.subscription = Some(receiver);
            let r = Some(response);
            proof {
                assert(old(self).spec_client() == client_g);
                let h = choose|h: int|
                    #[trigger] frame_sync_post(
                        old(uc)@,
                        uc@,
                        frame.doc_id@,
                        h,
                        client_g,
                        resp_g,
                        recv_g,
                    );
                assert(frame_sync_post(
                    old(uc)@,
                    uc@,
                    frame.doc_id@,
                    h,
                    old(self).spec_client(),
                    r->Some_0,
                    recv_g,
                ));
            }
            r
        } else if string_eq(&frame.message_type, "update") {
            match &frame.update {
                Some(update_base64) => {
                    let rr = uc.handle_update_request(
                        &frame.doc_id,
                        update_base64,
                        &self.client_id,
                    );
                    proof {
                        if is_base64(frame.update->Some_0@) {
                            assert(applied_post(
                                old(uc)@,
                                uc@,
                                frame.doc_id@,
                                base64_decoding(frame.update->Some_0@),
                                old(self).spec_client(),
                                rr is Ok,
                            ));
                        }
                    }
                    None
                },
                None => None,
            }
        } else if string_eq(&frame.message_type, "sv") {
            match &frame.update {
                Some(sv_base64) => {
                    let ghost b = sv_base64@;
                    let rr = uc.handle_state_vector_request(&frame.doc_id, sv_base64);
                    let ghost rr_g = rr;
                    let r = match rr {
                        Ok(Some(m)) => Some(m),
                        Ok(None) => None,
                        Err(_) => None,
                    };
                    proof {
                        assert(b == frame.update->Some_0@);
                        if is_base64(b) {
                            let h = choose|h: int|
                                #[trigger] sv_request_post(
                                    old(uc)@,
                                    uc@,
                                    frame.doc_id@,
                                    h,
                                    base64_decoding(b),
                                    rr_g,
                                );
                            assert(ws_sv_post(
                                old(uc)@,
                                uc@,
                                frame.doc_id@,
                                h,
                                base64_decoding(b),
                                r,
                            ));
                        }
                    }
                    r
                },
                None => None,
            }
        } else {
            None
        }
    }

    /// Polls the next pending broadcast notification of the active
    /// document, packaged as an outbound "update" frame.  A connection
    /// never receives a notification it originated itself.
    pub fn poll_notification(&mut self, uc: &DocumentUseCases) -> (r: Option<ServerMessage>)
        requires
            old(self).wf(),
            uc.wf(),
        ensures
            final(self).wf(),
            final(self).spec_client() == old(self).spec_client(),
            final(self).spec_active_doc() == old(self).spec_active_doc(),
            old(self).spec_active_doc() is None ==> r is None && *final(self) == *old(self),
            r matches Some(m) ==> m.message_type@ == "update"@ && m.data is None,
            ({
                &&& old(self).spec_active_doc() matches Some(d)
                &&& old(self).spec_sub() matches Some(s0)
                &&& contains_id(uc@, d)
            }) ==> exists|h: int, rn: Option<crate::broadcast::UpdateNotification>|
                {
                    &&& first_match(uc@, old(self).spec_active_doc()->Some_0, h)
                    &&& #[trigger] recv_post_at(
                        uc@,
                        h,
                        old(self).spec_sub()->Some_0,
                        final(self).spec_sub()->Some_0,
                        rn,
                    )
                    &&& final(self).spec_sub() is Some
                    &&& match rn {
                        Some(n) => r matches Some(m) && (m.update matches Some(u) && u@
                            == base64_encoding(n@.update)) && n@.source != old(
                            self,
                        ).spec_client(),
                        None => r is None,
                    }
                },
    {
        let doc_id = match &self.active_document_id {
            Some(d) => d.clone(),
            None => {
                return None;
            },
        };
        let ghost s0_g = self.subscription->Some_0;
        let (r_note, gh) = match &mut self.subscription {
            Some(sub) => uc.get_document_service().recv_notification(&doc_id, sub),
            None => {
                return None;
            },
        };
        let ghost rn_g = r_note;
        let ghost s1_g = self.subscription->Some_0;
        let r = match r_note {
            Some(n) => Some(
                ServerMessage {
                    message_type: String::from_str("update"),
                    data: None,
                    update: Some(crate::codec::base64_encode(n.update.as_slice())),
                },
            ),
            None => None,
        };
        proof {
            assert(doc_id@ == old(self).spec_active_doc()->Some_0);
            if contains_id(uc@, doc_id@) {
                assert({
                    &&& first_match(uc@, old(self).spec_active_doc()->Some_0, gh@)
                    &&& recv_post_at(
                        uc@,
                        gh@,
                        old(self).spec_sub()->Some_0,
                        self.spec_sub()->Some_0,
                        rn_g,
                    )
                    &&& self.spec_sub() is Some
                    &&& match rn_g {
                        Some(n) => r matches Some(m) && (m.update matches Some(u) && u@
                            == base64_encoding(n@.update)) && n@.source != old(
                            self,
                        ).spec_client(),
                        None => r is None,
                    }
                });
            }
        }
        r
    }
}

/// Whether the string equals the literal.
pub fn string_eq(s: &String, lit: &str) -> (r: bool)
    ensures
        r == (s@ == lit@),
{
    let l = String::from_str(lit);
    *s == l
}

} // verus!
