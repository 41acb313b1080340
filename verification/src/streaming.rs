//! Session registry and fanout for the bidirectional streaming transport.
//!
//! Each connected stream registers one entry per `{document_id, client_id}`
//! pair, holding an outbound message queue and, after a join, the user's
//! presence.  Inbound client messages drive the synchronization protocol: a
//! sync request attaches the session and answers with the document state, an
//! update is merged and fanned out to every other attached session of the
//! same document, join/leave maintain presence and notify the peers, and
//! awareness messages are relayed verbatim.  A message that needs a document
//! context before the session is attached is answered with an error rather
//! than silently dropped.  Stream I/O happens outside the library: it feeds
//! inbound messages in and drains the per-entry outboxes.

use vstd::prelude::*;

use crate::crdt::clone_bytes;
use crate::document_service::{doc_chan_len, sync_snapshot_post, DocumentService, ServiceError};
use crate::repository::applied_post;

verus! {

/// Presence of one user in one document, as a join reported it.
pub struct UserPresence {
    pub user_id: String,
    pub user_name: String,
    pub user_color: String,
    pub client_id: String,
    pub last_seen: i64,
    pub metadata: Vec<(String, String)>,
}

/// Mathematical image of a presence record.
#[verifier::ext_equal]
pub struct PresenceView {
    pub user_id: Seq<char>,
    pub user_name: Seq<char>,
    pub user_color: Seq<char>,
    pub client_id: Seq<char>,
    pub last_seen: i64,
    pub metadata: Seq<(Seq<char>, Seq<char>)>,
}

/// The images of a metadata list's key/value pairs.
pub open spec fn metadata_view(v: Seq<(String, String)>) -> Seq<(Seq<char>, Seq<char>)> {
    Seq::new(v.len(), |i: int| (v[i].0@, v[i].1@))
}

impl View for UserPresence {
    type V = PresenceView;

    open spec fn view(&self) -> PresenceView {
        PresenceView {
            user_id: self.user_id@,
            user_name: self.user_name@,
            user_color: self.user_color@,
            client_id: self.client_id@,
            last_seen: self.last_seen,
            metadata: metadata_view(self.metadata@),
        }
    }
}

/// One message of a client's inbound stream, by kind.
pub enum ClientPayload {
    /// Request the updates this client is missing; an empty state vector
    /// asks for the whole document.
    SyncRequest { state_vector: Vec<u8> },
    /// Merge a binary update into the document.
    Update { update_data: Vec<u8> },
    /// Join the document with presence information.
    JoinDocument {
        user_id: String,
        user_name: String,
        user_color: String,
        metadata: Vec<(String, String)>,
    },
    /// Leave the document.
    LeaveDocument { user_id: String },
    /// Relay an awareness state to the document's other sessions.
    Awareness { awareness_state: Vec<u8>, timestamp: i64 },
    /// Keep the session alive.
    Heartbeat,
}

/// An inbound message, scoped to a document and a client.
pub struct ClientEnvelope {
    pub document_id: String,
    pub client_id: String,
    pub message: ClientPayload,
}

/// One message of the server's outbound stream, by kind.
pub enum ServerPayload {
    /// Answer to a sync request: the updates the client is missing and the
    /// document's state vector.
    SyncResponse { update_data: Vec<u8>, state_vector: Vec<u8> },
    /// Another client's update, with its origin and the document-level
    /// sequence number of its notification.
    Update { update_data: Vec<u8>, origin_client_id: String, sequence_number: usize },
    /// Another user joined the document.
    UserJoined { user_id: String, user_name: String, user_color: String, client_id: String },
    /// Another user left the document.
    UserLeft { user_id: String, client_id: String },
    /// Another client's awareness state.
    Awareness { client_id: String, awareness_state: Vec<u8>, timestamp: i64 },
    /// A request failed; the kind says why.
    Error { error_code: u32, error_message: String, kind: ServiceError },
}

/// Mathematical image of an outbound payload.
#[verifier::ext_equal]
pub enum PayloadView {
    SyncResponse { update_data: Seq<u8>, state_vector: Seq<u8> },
    Update { update_data: Seq<u8>, origin_client_id: Seq<char>, sequence_number: int },
    UserJoined { user_id: Seq<char>, user_name: Seq<char>, user_color: Seq<char>, client_id: Seq<char> },
    UserLeft { user_id: Seq<char>, client_id: Seq<char> },
    Awareness { client_id: Seq<char>, awareness_state: Seq<u8>, timestamp: i64 },
    Error { error_code: u32, error_message: Seq<char>, kind: ServiceError },
}

impl View for ServerPayload {
    type V = PayloadView;

    open spec fn view(&self) -> PayloadView {
        match *self {
            ServerPayload::SyncResponse { ref update_data, ref state_vector } => {
                PayloadView::SyncResponse {
                    update_data: update_data@,
                    state_vector: state_vector@,
                }
            },
            ServerPayload::Update { ref update_data, ref origin_client_id, sequence_number } => {
                PayloadView::Update {
                    update_data: update_data@,
                    origin_client_id: origin_client_id@,
                    sequence_number: sequence_number as int,
                }
            },
            ServerPayload::UserJoined { ref user_id, ref user_name, ref user_color, ref client_id } => {
                PayloadView::UserJoined {
                    user_id: user_id@,
                    user_name: user_name@,
                    user_color: user_color@,
                    client_id: client_id@,
                }
            },
            ServerPayload::UserLeft { ref user_id, ref client_id } => {
                PayloadView::UserLeft { user_id: user_id@, client_id: client_id@ }
            },
            ServerPayload::Awareness { ref client_id, ref awareness_state, timestamp } => {
                PayloadView::Awareness {
                    client_id: client_id@,
                    awareness_state: awareness_state@,
                    timestamp,
                }
            },
            ServerPayload::Error { error_code, ref error_message, kind } => {
                PayloadView::Error { error_code, error_message: error_message@, kind }
            },
        }
    }
}

/// An outbound message, scoped to a document and stamped with the server
/// time at which it was produced.
pub struct ServerEnvelope {
    pub document_id: String,
    pub timestamp: i64,
    pub message: ServerPayload,
}

/// Mathematical image of an outbound message.
#[verifier::ext_equal]
pub struct EnvView {
    pub document_id: Seq<char>,
    pub timestamp: i64,
    pub message: PayloadView,
}

impl View for ServerEnvelope {
    type V = EnvView;

    open spec fn view(&self) -> EnvView {
        EnvView { document_id: self.document_id@, timestamp: self.timestamp, message: self.message@ }
    }
}

/// One stream session: the document and client it belongs to, whether a
/// sync request has attached it, its outbound queue, and its presence.
pub struct SessionEntry {
    pub document_id: String,
    pub client_id: String,
    pub attached: bool,
    pub outbox: Vec<ServerEnvelope>,
    pub presence: Option<UserPresence>,
}

/// Mathematical image of a session entry.
#[verifier::ext_equal]
pub struct EntryView {
    pub document_id: Seq<char>,
    pub client_id: Seq<char>,
    pub attached: bool,
    pub outbox: Seq<EnvView>,
    pub presence: Option<PresenceView>,
}

impl View for SessionEntry {
    type V = EntryView;

    open spec fn view(&self) -> EntryView {
        EntryView {
            document_id: self.document_id@,
            client_id: self.client_id@,
            attached: self.attached,
            outbox: Seq::new(self.outbox@.len(), |i: int| self.outbox@[i]@),
            presence: match self.presence {
                Some(ref p) => Some(p@),
                None => None,
            },
        }
    }
}

/// Whether the entry belongs to document `d` and client `c`.
pub open spec fn entry_key_is(e: EntryView, d: Seq<char>, c: Seq<char>) -> bool {
    e.document_id == d && e.client_id == c
}

/// Whether some entry belongs to `(d, c)`.
pub open spec fn hub_contains(s: Seq<EntryView>, d: Seq<char>, c: Seq<char>) -> bool {
    exists|i: int| 0 <= i < s.len() && entry_key_is(s[i], d, c)
}

/// Whether the session `(d, c)` is present and attached.
pub open spec fn hub_attached(s: Seq<EntryView>, d: Seq<char>, c: Seq<char>) -> bool {
    exists|i: int| 0 <= i < s.len() && entry_key_is(s[i], d, c) && s[i].attached
}

/// `h` is the index of the (first) entry for `(d, c)`.
pub open spec fn entry_first_match(s: Seq<EntryView>, d: Seq<char>, c: Seq<char>, h: int) -> bool {
    &&& 0 <= h < s.len()
    &&& entry_key_is(s[h], d, c)
    &&& forall|j: int| 0 <= j < h ==> !entry_key_is(s[j], d, c)
}

/// The entry with `m` appended to its outbound queue, all else unchanged.
pub open spec fn with_push(e: EntryView, m: EnvView) -> EntryView {
    EntryView {
        document_id: e.document_id,
        client_id: e.client_id,
        attached: e.attached,
        outbox: e.outbox.push(m),
        presence: e.presence,
    }
}

/// Whether a broadcast on document `d` that excludes client `exclude`
/// delivers to this entry: every registered session of the document other
/// than the originator itself.
pub open spec fn targeted(e: EntryView, d: Seq<char>, exclude: Seq<char>) -> bool {
    e.document_id == d && e.client_id != exclude
}

/// What broadcasting `m` on document `d` (excluding `exclude`) does: every
/// targeted entry's outbox gains `m`, every other entry is untouched.
pub open spec fn fanout_post(
    s0: Seq<EntryView>,
    s1: Seq<EntryView>,
    d: Seq<char>,
    exclude: Seq<char>,
    m: EnvView,
) -> bool {
    &&& s1.len() == s0.len()
    &&& forall|i: int|
        0 <= i < s0.len() ==> if targeted(s0[i], d, exclude) {
            s1[i] == with_push(s0[i], m)
        } else {
            s1[i] == s0[i]
        }
}

/// A fresh, unattached entry for `(d, c)`.
pub open spec fn fresh_entry(d: Seq<char>, c: Seq<char>) -> EntryView {
    EntryView {
        document_id: d,
        client_id: c,
        attached: false,
        outbox: Seq::<EnvView>::empty(),
        presence: None,
    }
}

/// What registering the session `(d, c)` does: nothing when it is already
/// present (then `h` is its index), else one fresh unattached entry is
/// appended at `h`.
pub open spec fn ensure_post(
    s0: Seq<EntryView>,
    s1: Seq<EntryView>,
    d: Seq<char>,
    c: Seq<char>,
    h: int,
) -> bool {
    &&& entry_first_match(s1, d, c, h)
    &&& if hub_contains(s0, d, c) {
        s1 == s0
    } else {
        &&& h == s0.len()
        &&& s1.len() == s0.len() + 1
        &&& forall|j: int| 0 <= j < s0.len() ==> s1[j] == s0[j]
        &&& s1[h] == fresh_entry(d, c)
    }
}

/// What attaching and answering a sync request does to the registry: the
/// `(d, c)` entry (created fresh if absent) becomes attached and its
/// outbox gains the reply `m`; nothing else changes.
pub open spec fn attach_reply_post(
    s0: Seq<EntryView>,
    s1: Seq<EntryView>,
    d: Seq<char>,
    c: Seq<char>,
    m: EnvView,
) -> bool {
    if hub_contains(s0, d, c) {
        exists|k: int|
            {
                &&& #[trigger] entry_first_match(s0, d, c, k)
                &&& s1.len() == s0.len()
                &&& forall|j: int| 0 <= j < s0.len() && j != k ==> s1[j] == s0[j]
                &&& s1[k] == EntryView {
                    document_id: s0[k].document_id,
                    client_id: s0[k].client_id,
                    attached: true,
                    outbox: s0[k].outbox.push(m),
                    presence: s0[k].presence,
                }
            }
    } else {
        &&& s1.len() == s0.len() + 1
        &&& forall|j: int| 0 <= j < s0.len() ==> s1[j] == s0[j]
        &&& s1.last() == EntryView {
            document_id: d,
            client_id: c,
            attached: true,
            outbox: Seq::<EnvView>::empty().push(m),
            presence: None,
        }
    }
}

/// What rejecting a message that needs an attached session does: the
/// `(d, c)` entry (created fresh if absent) gains the error reply `m` in
/// its outbox and stays unattached as it was; nothing else changes.
pub open spec fn not_attached_post(
    s0: Seq<EntryView>,
    s1: Seq<EntryView>,
    d: Seq<char>,
    c: Seq<char>,
    m: EnvView,
) -> bool {
    if hub_contains(s0, d, c) {
        exists|k: int|
            {
                &&& #[trigger] entry_first_match(s0, d, c, k)
                &&& s1.len() == s0.len()
                &&& forall|j: int| 0 <= j < s0.len() && j != k ==> s1[j] == s0[j]
                &&& s1[k] == with_push(s0[k], m)
            }
    } else {
        &&& s1.len() == s0.len() + 1
        &&& forall|j: int| 0 <= j < s0.len() ==> s1[j] == s0[j]
        &&& s1.last() == with_push(fresh_entry(d, c), m)
    }
}

/// What a join by `(d, c)` with presence `pv` does: the entry's presence
/// becomes `pv`, and every other attached session of the document gains
/// the notification `m`.
pub open spec fn join_case_post_at(
    s0: Seq<EntryView>,
    s1: Seq<EntryView>,
    d: Seq<char>,
    c: Seq<char>,
    pv: PresenceView,
    m: EnvView,
    k: int,
) -> bool {
    &&& entry_first_match(s0, d, c, k)
    &&& s1.len() == s0.len()
    &&& s1[k] == EntryView {
        document_id: s0[k].document_id,
        client_id: s0[k].client_id,
        attached: s0[k].attached,
        outbox: s0[k].outbox,
        presence: Some(pv),
    }
    &&& forall|j: int|
        0 <= j < s0.len() && j != k ==> if targeted(s0[j], d, c) {
            s1[j] == with_push(s0[j], m)
        } else {
            s1[j] == s0[j]
        }
}

/// What a join by `(d, c)` with presence `pv` does, with the entry's
/// index abstracted away.
pub open spec fn join_case_post(
    s0: Seq<EntryView>,
    s1: Seq<EntryView>,
    d: Seq<char>,
    c: Seq<char>,
    pv: PresenceView,
    m: EnvView,
) -> bool {
    exists|k: int| #[trigger] join_case_post_at(s0, s1, d, c, pv, m, k)
}

/// What a leave by `(d, c)` does: the entry is removed — its presence with
/// it — and every other attached session of the document gains the
/// notification `m`.
pub open spec fn leave_case_post_at(
    s0: Seq<EntryView>,
    s1: Seq<EntryView>,
    d: Seq<char>,
    c: Seq<char>,
    m: EnvView,
    k: int,
) -> bool {
    &&& entry_first_match(s0, d, c, k)
    &&& s1.len() == s0.len() - 1
    &&& forall|j: int|
        0 <= j < k ==> if targeted(s0[j], d, c) {
            s1[j] == with_push(s0[j], m)
        } else {
            s1[j] == s0[j]
        }
    &&& forall|j: int|
        k < j < s0.len() ==> if targeted(s0[j], d, c) {
            s1[j - 1] == with_push(s0[j], m)
        } else {
            s1[j - 1] == s0[j]
        }
}

/// What a leave by `(d, c)` does, with the entry's index abstracted away.
pub open spec fn leave_case_post(
    s0: Seq<EntryView>,
    s1: Seq<EntryView>,
    d: Seq<char>,
    c: Seq<char>,
    m: EnvView,
) -> bool {
    exists|k: int| #[trigger] leave_case_post_at(s0, s1, d, c, m, k)
}

/// What a heartbeat by `(d, c)` does: when the session has presence, its
/// last-seen time advances to `now`; nothing else changes, nothing is
/// broadcast.
pub open spec fn heartbeat_case_post(
    s0: Seq<EntryView>,
    s1: Seq<EntryView>,
    d: Seq<char>,
    c: Seq<char>,
    now: i64,
) -> bool {
    if hub_contains(s0, d, c) {
        exists|k: int|
            {
                &&& #[trigger] entry_first_match(s0, d, c, k)
                &&& s1.len() == s0.len()
                &&& forall|j: int| 0 <= j < s0.len() && j != k ==> s1[j] == s0[j]
                &&& s1[k] == match s0[k].presence {
                    Some(p) => EntryView {
                        document_id: s0[k].document_id,
                        client_id: s0[k].client_id,
                        attached: s0[k].attached,
                        outbox: s0[k].outbox,
                        presence: Some(
                            PresenceView {
                                user_id: p.user_id,
                                user_name: p.user_name,
                                user_color: p.user_color,
                                client_id: p.client_id,
                                last_seen: now,
                                metadata: p.metadata,
                            },
                        ),
                    },
                    None => s0[k],
                }
            }
    } else {
        s1 == s0
    }
}

/// The presences of the document's sessions, in entry order.
pub open spec fn active_users_of(s: Seq<EntryView>, d: Seq<char>) -> Seq<PresenceView>
    decreases s.len(),
{
    if s.len() == 0 {
        Seq::<PresenceView>::empty()
    } else {
        let rest = active_users_of(s.drop_last(), d);
        let e = s.last();
        if e.document_id == d && e.presence is Some {
            rest.push(e.presence->0)
        } else {
            rest
        }
    }
}

/// An outbound message for document `d` stamped `ts`.
pub open spec fn env_of(d: Seq<char>, ts: i64, p: PayloadView) -> EnvView {
    EnvView { document_id: d, timestamp: ts, message: p }
}

/// The error payload answering a payload that does not decode or merge.
pub open spec fn decode_error_view() -> PayloadView {
    PayloadView::Error {
        error_code: 400,
        error_message: "payload could not be decoded or merged"@,
        kind: ServiceError::DecodeError,
    }
}

/// The error payload answering a document operation sent before the
/// session attached via a sync request.
pub open spec fn not_attached_view() -> PayloadView {
    PayloadView::Error {
        error_code: 409,
        error_message: "session is not attached to a document"@,
        kind: ServiceError::NotAttached,
    }
}

/// The reply to a sync request, from the service's answer: the missing
/// updates and state vector on success, a decode error otherwise.
pub open spec fn sync_reply_view(rr: Result<(Vec<u8>, Vec<u8>), ServiceError>) -> PayloadView {
    match rr {
        Ok(p) => PayloadView::SyncResponse { update_data: p.0@, state_vector: p.1@ },
        Err(_) => decode_error_view(),
    }
}

/// Everything one protocol step at time `now` does, by the kind of the
/// inbound message: how the session registry `hub0` becomes `hub1` and how
/// the document registry `svc0` becomes `svc1`.
pub open spec fn protocol_step_post(
    hub0: Seq<EntryView>,
    hub1: Seq<EntryView>,
    svc0: Seq<crate::repository::DocEntry>,
    svc1: Seq<crate::repository::DocEntry>,
    msg: ClientEnvelope,
    now: i64,
) -> bool {
    &&& (
            msg.message matches ClientPayload::SyncRequest { state_vector } ==> exists|
                hd: int,
                rr: Result<(Vec<u8>, Vec<u8>), ServiceError>,
            |
                {
                    &&& #[trigger] sync_snapshot_post(
                        svc0,
                        svc1,
                        msg.document_id@,
                        hd,
                        state_vector@,
                        rr,
                    )
                    &&& attach_reply_post(
                        hub0,
                        hub1,
                        msg.document_id@,
                        msg.client_id@,
                        env_of(msg.document_id@, now, sync_reply_view(rr)),
                    )
                }
    )
    &&& (
            msg.message matches ClientPayload::Update { update_data } ==> (if hub_attached(
                hub0,
                msg.document_id@,
                msg.client_id@,
            ) {
                exists|ok: bool|
                    {
                        &&& #[trigger] applied_post(
                            svc0,
                            svc1,
                            msg.document_id@,
                            update_data@,
                            msg.client_id@,
                            ok,
                        )
                        &&& (ok ==> fanout_post(
                            hub0,
                            hub1,
                            msg.document_id@,
                            msg.client_id@,
                            env_of(
                                msg.document_id@,
                                now,
                                PayloadView::Update {
                                    update_data: update_data@,
                                    origin_client_id: msg.client_id@,
                                    sequence_number: doc_chan_len(svc1, msg.document_id@),
                                },
                            ),
                        ))
                        &&& (!ok ==> not_attached_post(
                            hub0,
                            hub1,
                            msg.document_id@,
                            msg.client_id@,
                            env_of(msg.document_id@, now, decode_error_view()),
                        ))
                    }
            } else {
                svc1 == svc0 && not_attached_post(
                    hub0,
                    hub1,
                    msg.document_id@,
                    msg.client_id@,
                    env_of(msg.document_id@, now, not_attached_view()),
                )
            })
    )
    &&& (
            msg.message matches ClientPayload::JoinDocument {
                user_id,
                user_name,
                user_color,
                metadata,
            } ==> svc1 == svc0 && (if hub_attached(
                hub0,
                msg.document_id@,
                msg.client_id@,
            ) {
                join_case_post(
                    hub0,
                    hub1,
                    msg.document_id@,
                    msg.client_id@,
                    PresenceView {
                        user_id: user_id@,
                        user_name: user_name@,
                        user_color: user_color@,
                        client_id: msg.client_id@,
                        last_seen: now,
                        metadata: metadata_view(metadata@),
                    },
                    env_of(
                        msg.document_id@,
                        now,
                        PayloadView::UserJoined {
                            user_id: user_id@,
                            user_name: user_name@,
                            user_color: user_color@,
                            client_id: msg.client_id@,
                        },
                    ),
                )
            } else {
                not_attached_post(
                    hub0,
                    hub1,
                    msg.document_id@,
                    msg.client_id@,
                    env_of(msg.document_id@, now, not_attached_view()),
                )
            })
    )
    &&& (
            msg.message matches ClientPayload::LeaveDocument { user_id }
                ==> svc1 == svc0 && (if hub_attached(hub0, msg.document_id@, msg.client_id@) {
                leave_case_post(
                    hub0,
                    hub1,
                    msg.document_id@,
                    msg.client_id@,
                    env_of(
                        msg.document_id@,
                        now,
                        PayloadView::UserLeft { user_id: user_id@, client_id: msg.client_id@ },
                    ),
                )
            } else {
                not_attached_post(
                    hub0,
                    hub1,
                    msg.document_id@,
                    msg.client_id@,
                    env_of(msg.document_id@, now, not_attached_view()),
                )
            })
    )
    &&& (
            msg.message matches ClientPayload::Awareness { awareness_state, timestamp }
                ==> svc1 == svc0 && (if hub_attached(hub0, msg.document_id@, msg.client_id@) {
                fanout_post(
                    hub0,
                    hub1,
                    msg.document_id@,
                    msg.client_id@,
                    env_of(
                        msg.document_id@,
                        now,
                        PayloadView::Awareness {
                            client_id: msg.client_id@,
                            awareness_state: awareness_state@,
                            timestamp,
                        },
                    ),
                )
            } else {
                not_attached_post(
                    hub0,
                    hub1,
                    msg.document_id@,
                    msg.client_id@,
                    env_of(msg.document_id@, now, not_attached_view()),
                )
            })
    )
    &&& (
            msg.message is Heartbeat ==> svc1 == svc0 && heartbeat_case_post(
                hub0,
                hub1,
                msg.document_id@,
                msg.client_id@,
                now,
            )
    )
}

/// In a registry without duplicate keys, the session `(d, c)` is attached
/// exactly when its one entry is.
pub proof fn lemma_attached_iff(s: Seq<EntryView>, d: Seq<char>, c: Seq<char>, h: int)
    requires
        forall|i: int, j: int|
            0 <= i < j < s.len() ==> !(s[i].document_id == s[j].document_id && s[i].client_id
                == s[j].client_id),
        entry_first_match(s, d, c, h),
    ensures
        hub_attached(s, d, c) <==> s[h].attached,
        hub_contains(s, d, c),
{
    assert(entry_key_is(s[h], d, c));
    if hub_attached(s, d, c) {
        let i = choose|i: int| 0 <= i < s.len() && entry_key_is(s[i], d, c) && s[i].attached;
        if i != h {
            if i < h {
                assert(!(s[i].document_id == s[h].document_id && s[i].client_id
                    == s[h].client_id));
            } else {
                assert(!(s[h].document_id == s[i].document_id && s[h].client_id
                    == s[i].client_id));
            }
        }
    }
}

/// Removing one entry from a registry without duplicate keys leaves one
/// without duplicate keys.
pub proof fn lemma_wf_after_remove(s: Seq<EntryView>, k: int)
    requires
        0 <= k < s.len(),
        forall|i: int, j: int|
            0 <= i < j < s.len() ==> !(s[i].document_id == s[j].document_id && s[i].client_id
                == s[j].client_id),
    ensures
        forall|i: int, j: int|
            0 <= i < j < s.remove(k).len() ==> !(s.remove(k)[i].document_id
                == s.remove(k)[j].document_id && s.remove(k)[i].client_id
                == s.remove(k)[j].client_id),
{
    let t = s.remove(k);
    assert forall|i: int, j: int|
        0 <= i < j < t.len() implies !(t[i].document_id == t[j].document_id && t[i].client_id
        == t[j].client_id) by {
        let i0: int = if i < k {
            i
        } else {
            i + 1
        };
        let j0: int = if j < k {
            j
        } else {
            j + 1
        };
        assert(t[i] == s[i0]);
        assert(t[j] == s[j0]);
        assert(!(s[i0].document_id == s[j0].document_id && s[i0].client_id == s[j0].client_id));
    }
}

/// Sessions whose keys agree pairwise with a registry that had no
/// duplicate keys have none either.
pub proof fn lemma_keys_preserved_wf(s0: Seq<EntryView>, s1: Seq<EntryView>)
    requires
        s1.len() == s0.len(),
        forall|j: int|
            0 <= j < s0.len() ==> s1[j].document_id == s0[j].document_id && s1[j].client_id
                == s0[j].client_id,
        forall|i: int, j: int|
            0 <= i < j < s0.len() ==> !(s0[i].document_id == s0[j].document_id
                && s0[i].client_id == s0[j].client_id),
    ensures
        forall|i: int, j: int|
            0 <= i < j < s1.len() ==> !(s1[i].document_id == s1[j].document_id
                && s1[i].client_id == s1[j].client_id),
{
    assert forall|i: int, j: int|
        0 <= i < j < s1.len() implies !(s1[i].document_id == s1[j].document_id
        && s1[i].client_id == s1[j].client_id) by {
        assert(s1[i].document_id == s0[i].document_id && s1[i].client_id == s0[i].client_id);
        assert(s1[j].document_id == s0[j].document_id && s1[j].client_id == s0[j].client_id);
    }
}

/// A fresh copy of an outbound message.
pub fn duplicate_envelope(e: &ServerEnvelope) -> (r: ServerEnvelope)
    ensures
        r@ == e@,
{
    let message = match &e.message {
        ServerPayload::SyncResponse { update_data, state_vector } => {
            ServerPayload::SyncResponse {
                update_data: clone_bytes(update_data.as_slice()),
                state_vector: clone_bytes(state_vector.as_slice()),
            }
        },
        ServerPayload::Update { update_data, origin_client_id, sequence_number } => {
            ServerPayload::Update {
                update_data: clone_bytes(update_data.as_slice()),
                origin_client_id: origin_client_id.clone(),
                sequence_number: *sequence_number,
            }
        },
        ServerPayload::UserJoined { user_id, user_name, user_color, client_id } => {
            ServerPayload::UserJoined {
                user_id: user_id.clone(),
                user_name: user_name.clone(),
                user_color: user_color.clone(),
                client_id: client_id.clone(),
            }
        },
        ServerPayload::UserLeft { user_id, client_id } => {
            ServerPayload::UserLeft { user_id: user_id.clone(), client_id: client_id.clone() }
        },
        ServerPayload::Awareness { client_id, awareness_state, timestamp } => {
            ServerPayload::Awareness {
                client_id: client_id.clone(),
                awareness_state: clone_bytes(awareness_state.as_slice()),
                timestamp: *timestamp,
            }
        },
        ServerPayload::Error { error_code, error_message, kind } => {
            ServerPayload::Error {
                error_code: *error_code,
                error_message: error_message.clone(),
                kind: *kind,
            }
        },
    };
    let r = ServerEnvelope { document_id: e.document_id.clone(), timestamp: e.timestamp, message };
    proof {
        assert(r@ =~= e@);
    }
    r
}

/// A fresh copy of a metadata list.
fn duplicate_metadata(v: &Vec<(String, String)>) -> (r: Vec<(String, String)>)
    ensures
        metadata_view(r@) == metadata_view(v@),
{
    let n = v.len();
    let mut r: Vec<(String, String)> = Vec::new();
    let mut i: usize = 0;
    while i < n
        invariant
            n == v@.len(),
            0 <= i <= n,
            r@.len() == i,
            forall|j: int| 0 <= j < i ==> r@[j].0@ == v@[j].0@ && r@[j].1@ == v@[j].1@,
        decreases n - i,
    {
        let pair = (v[i].0.clone(), v[i].1.clone());
        r.push(pair);
        i += 1;
    }
    proof {
        assert(metadata_view(r@) =~= metadata_view(v@));
    }
    r
}

/// A fresh copy of a presence record.
fn duplicate_presence(p: &UserPresence) -> (r: UserPresence)
    ensures
        r@ == p@,
{
    let r = UserPresence {
        user_id: p.user_id.clone(),
        user_name: p.user_name.clone(),
        user_color: p.user_color.clone(),
        client_id: p.client_id.clone(),
        last_seen: p.last_seen,
        metadata: duplicate_metadata(&p.metadata),
    };
    proof {
        assert(r@ =~= p@);
    }
    r
}

/// The registry of streaming sessions.
pub struct StreamingSessions {
    entries: Vec<SessionEntry>,
}

impl View for StreamingSessions {
    type V = Seq<EntryView>;

    closed spec fn view(&self) -> Seq<EntryView> {
        Seq::new(self.entries@.len(), |i: int| self.entries@[i]@)
    }
}

impl StreamingSessions {
    /// No two entries share a `(document, client)` key.
    pub open spec fn wf(self) -> bool {
        forall|i: int, j: int|
            0 <= i < j < self@.len() ==> !(self@[i].document_id == self@[j].document_id
                && self@[i].client_id == self@[j].client_id)
    }

    /// Creates an empty session registry.
    pub fn new() -> (r: Self)
        ensures
            r.wf(),
            r@ == Seq::<EntryView>::empty(),
    {
        let r = StreamingSessions { entries: Vec::new() };
        proof {
            assert(r@ =~= Seq::<EntryView>::empty());
        }
        r
    }

    /// Index of the entry for `(document_id, client_id)`, if present.
    fn find_entry(&self, document_id: &String, client_id: &String) -> (r: Option<usize>)
        ensures
            match r {
                Some(i) => entry_first_match(self@, document_id@, client_id@, i as int),
                None => !hub_contains(self@, document_id@, client_id@),
            },
    {
        let n = self.entries.len();
        let mut i: usize = 0;
        while i < n
            invariant
                n == self@.len(),
                n == self.entries@.len(),
                0 <= i <= n,
                forall|j: int|
                    0 <= j < i ==> !entry_key_is(self@[j], document_id@, client_id@),
            decreases n - i,
        {
            if self.entries[i].document_id == *document_id && self.entries[i].client_id
                == *client_id {
                return Some(i);
            }
            i += 1;
        }
        None
    }

    /// Registers the session `(document_id, client_id)`: a fresh unattached
    /// entry when none exists yet, otherwise the existing one.
    pub fn ensure_session(&mut self, document_id: &String, client_id: &String) -> (h: usize)
        requires
            old(self).wf(),
            old(self)@.len() < usize::MAX,
        ensures
            final(self).wf(),
            ensure_post(old(self)@, final(self)@, document_id@, client_id@, h as int),
    {
        match self.find_entry(document_id, client_id) {
            Some(i) => i,
            None => {
                let h = self.entries.len();
                self.entries.push(
                    SessionEntry {
                        document_id: document_id.clone(),
                        client_id: client_id.clone(),
                        attached: false,
                        outbox: Vec::new(),
                        presence: None,
                    },
                );
                proof {
                    assert(final(self)@[h as int] =~= fresh_entry(document_id@, client_id@));
                    assert(forall|j: int|
                        0 <= j < old(self)@.len() ==> final(self)@[j] == old(self)@[j]);
                }
                h
            },
        }
    }

    /// Removes the session `(document_id, client_id)`, as the transport
    /// does when a stream ends; nothing happens when it is not present.
    pub fn remove_session(&mut self, document_id: &String, client_id: &String)
        requires
            old(self).wf(),
        ensures
            final(self).wf(),
            !hub_contains(old(self)@, document_id@, client_id@) ==> final(self)@ == old(self)@,
            hub_contains(old(self)@, document_id@, client_id@) ==> exists|k: int|
                #[trigger] entry_first_match(old(self)@, document_id@, client_id@, k)
                    && final(self)@ == old(self)@.remove(k),
    {
        match self.find_entry(document_id, client_id) {
            Some(i) => {
                self.entries.remove(i);
                proof {
                    assert(final(self)@ =~= old(self)@.remove(i as int));
                }
            },
            None => {
                proof {
                    assert(final(self)@ =~= old(self)@);
                }
            },
        }
    }

    /// Hands out and empties the outbound queue of the session
    /// `(document_id, client_id)`; the transport forwards it to the
    /// client's stream.
    pub fn take_outbox(&mut self, document_id: &String, client_id: &String) -> (r: Vec<
        ServerEnvelope,
    >)
        requires
            old(self).wf(),
        ensures
            final(self).wf(),
            !hub_contains(old(self)@, document_id@, client_id@) ==> final(self)@ == old(self)@
                && r@.len() == 0,
            hub_contains(old(self)@, document_id@, client_id@) ==> exists|k: int|
                {
                    &&& #[trigger] entry_first_match(old(self)@, document_id@, client_id@, k)
                    &&& final(self)@.len() == old(self)@.len()
                    &&& forall|j: int|
                        0 <= j < old(self)@.len() && j != k ==> final(self)@[j] == old(self)@[j]
                    &&& final(self)@[k] == EntryView {
                        document_id: old(self)@[k].document_id,
                        client_id: old(self)@[k].client_id,
                        attached: old(self)@[k].attached,
                        outbox: Seq::<EnvView>::empty(),
                        presence: old(self)@[k].presence,
                    }
                    &&& Seq::new(r@.len(), |i: int| r@[i]@) == old(self)@[k].outbox
                },
    {
        match self.find_entry(document_id, client_id) {
            Some(i) => {
                let mut entry = self.entries.remove(i);
                let out = entry.outbox;
                entry.outbox = Vec::new();
                self.entries.insert(i, entry);
                proof {
                    assert(forall|j: int|
                        0 <= j < old(self)@.len() && j != i ==> final(self)@[j] == old(
                            self,
                        )@[j]);
                    assert(final(self)@[i as int] =~= EntryView {
                        document_id: old(self)@[i as int].document_id,
                        client_id: old(self)@[i as int].client_id,
                        attached: old(self)@[i as int].attached,
                        outbox: Seq::<EnvView>::empty(),
                        presence: old(self)@[i as int].presence,
                    });
                    assert(Seq::new(out@.len(), |j: int| out@[j]@) =~= old(
                        self,
                    )@[i as int].outbox);
                }
                out
            },
            None => {
                proof {
                    assert(final(self)@ =~= old(self)@);
                }
                Vec::new()
            },
        }
    }

    /// Sends `message` to every attached session of `document_id` other
    /// than `exclude_client`: its copy is appended to each such session's
    /// outbound queue.  A session that went away simply no longer has an
    /// entry; nothing blocks.
    pub fn broadcast_to_document(
        &mut self,
        document_id: &String,
        message: &ServerEnvelope,
        exclude_client: &String,
    )
        requires
            old(self).wf(),
        ensures
            final(self).wf(),
            fanout_post(old(self)@, final(self)@, document_id@, exclude_client@, message@),
    {
        let n = self.entries.len();
        let mut i: usize = 0;
        while i < n
            invariant
                self.wf(),
                n == old(self)@.len(),
                n == self.entries@.len(),
                0 <= i <= n,
                forall|j: int|
                    0 <= j < i ==> if targeted(old(self)@[j], document_id@, exclude_client@) {
                        self@[j] == with_push(old(self)@[j], message@)
                    } else {
                        self@[j] == old(self)@[j]
                    },
                forall|j: int| i <= j < n ==> self@[j] == old(self)@[j],
            decreases n - i,
        {
            let ghost pre = self@;
            let is_target = self.entries[i].document_id == *document_id && !(
            self.entries[i].client_id == *exclude_client);
            if is_target {
                let mut entry = self.entries.remove(i);
                entry.outbox.push(duplicate_envelope(message));
                self.entries.insert(i, entry);
                proof {
                    assert(self@[i as int].outbox =~= pre[i as int].outbox.push(message@));
                    assert(self@[i as int] =~~= with_push(pre[i as int], message@));
                    assert(forall|j: int| 0 <= j < n && j != i ==> self@[j] == pre[j]);
                    assert(forall|j: int|
                        0 <= j < n ==> self@[j].document_id == pre[j].document_id
                            && self@[j].client_id == pre[j].client_id);
                    assert(self@.len() == n);
                    assert forall|a: int, b: int|
                        0 <= a < b < self@.len() implies !(self@[a].document_id
                        == self@[b].document_id && self@[a].client_id
                        == self@[b].client_id) by {
                        assert(self@[a].document_id == pre[a].document_id && self@[a].client_id
                            == pre[a].client_id);
                        assert(self@[b].document_id == pre[b].document_id && self@[b].client_id
                            == pre[b].client_id);
                        assert(!(pre[a].document_id == pre[b].document_id && pre[a].client_id
                            == pre[b].client_id));
                    }
                    assert(self.wf());
                }
            }
            i += 1;
        }
    }

    /// Appends `env` to the outbound queue of the entry at `h`.
    fn push_to_entry(&mut self, h: usize, env: ServerEnvelope)
        requires
            old(self).wf(),
            h < old(self)@.len(),
        ensures
            final(self).wf(),
            final(self)@.len() == old(self)@.len(),
            forall|j: int|
                0 <= j < old(self)@.len() && j != h ==> final(self)@[j] == old(self)@[j],
            final(self)@[h as int] == (with_push(old(self)@[h as int], env@)),
    {
        let ghost envv = env@;
        let mut entry = self.entries.remove(h);
        entry.outbox.push(env);
        self.entries.insert(h, entry);
        proof {
            assert(self@[h as int].outbox =~= old(self)@[h as int].outbox.push(envv));
            assert(self@[h as int] =~~= with_push(old(self)@[h as int], envv));
            assert(forall|j: int|
                0 <= j < old(self)@.len() && j != h ==> self@[j] == old(self)@[j]);
            lemma_keys_preserved_wf(old(self)@, self@);
        }
    }

    /// Marks the entry at `h` attached and appends `env` to its queue.
    fn attach_and_push(&mut self, h: usize, env: ServerEnvelope)
        requires
            old(self).wf(),
            h < old(self)@.len(),
        ensures
            final(self).wf(),
            final(self)@.len() == old(self)@.len(),
            forall|j: int|
                0 <= j < old(self)@.len() && j != h ==> final(self)@[j] == old(self)@[j],
            final(self)@[h as int] == (EntryView {
                document_id: old(self)@[h as int].document_id,
                client_id: old(self)@[h as int].client_id,
                attached: true,
                outbox: old(self)@[h as int].outbox.push(env@),
                presence: old(self)@[h as int].presence,
            }),
    {
        let ghost envv = env@;
        let mut entry = self.entries.remove(h);
        entry.attached = true;
        entry.outbox.push(env);
        self.entries.insert(h, entry);
        proof {
            assert(self@[h as int].outbox =~= old(self)@[h as int].outbox.push(envv));
            assert(self@[h as int] =~~= EntryView {
                document_id: old(self)@[h as int].document_id,
                client_id: old(self)@[h as int].client_id,
                attached: true,
                outbox: old(self)@[h as int].outbox.push(envv),
                presence: old(self)@[h as int].presence,
            });
            assert(forall|j: int|
                0 <= j < old(self)@.len() && j != h ==> self@[j] == old(self)@[j]);
            lemma_keys_preserved_wf(old(self)@, self@);
        }
    }

    /// Replaces the presence of the entry at `h`.
    fn set_presence(&mut self, h: usize, presence: UserPresence)
        requires
            old(self).wf(),
            h < old(self)@.len(),
        ensures
            final(self).wf(),
            final(self)@.len() == old(self)@.len(),
            forall|j: int|
                0 <= j < old(self)@.len() && j != h ==> final(self)@[j] == old(self)@[j],
            final(self)@[h as int] == (EntryView {
                document_id: old(self)@[h as int].document_id,
                client_id: old(self)@[h as int].client_id,
                attached: old(self)@[h as int].attached,
                outbox: old(self)@[h as int].outbox,
                presence: Some(presence@),
            }),
    {
        let ghost pv = presence@;
        let mut entry = self.entries.remove(h);
        entry.presence = Some(presence);
        self.entries.insert(h, entry);
        proof {
            assert(self@[h as int] =~~= EntryView {
                document_id: old(self)@[h as int].document_id,
                client_id: old(self)@[h as int].client_id,
                attached: old(self)@[h as int].attached,
                outbox: old(self)@[h as int].outbox,
                presence: Some(pv),
            });
            assert(forall|j: int|
                0 <= j < old(self)@.len() && j != h ==> self@[j] == old(self)@[j]);
            lemma_keys_preserved_wf(old(self)@, self@);
        }
    }

    /// The users currently present in `document_id`, as their joins
    /// reported them.
    pub fn get_active_users_for_document(&self, document_id: &String) -> (r: Vec<UserPresence>)
        ensures
            Seq::new(r@.len(), |i: int| r@[i]@) == active_users_of(self@, document_id@),
    {
        let n = self.entries.len();
        let mut r: Vec<UserPresence> = Vec::new();
        let mut i: usize = 0;
        while i < n
            invariant
                n == self@.len(),
                n == self.entries@.len(),
                0 <= i <= n,
                Seq::new(r@.len(), |j: int| r@[j]@) =~= active_users_of(
                    self@.take(i as int),
                    document_id@,
                ),
            decreases n - i,
        {
            proof {
                assert(self@.take(i + 1).drop_last() =~= self@.take(i as int));
                assert(self@.take(i + 1).last() == self@[i as int]);
            }
            if self.entries[i].document_id == *document_id {
                match &self.entries[i].presence {
                    Some(p) => {
                        r.push(duplicate_presence(p));
                        proof {
                            assert(Seq::new(r@.len(), |j: int| r@[j]@) =~= active_users_of(
                                self@.take(i + 1),
                                document_id@,
                            ));
                        }
                    },
                    None => {
                        proof {
                            assert(Seq::new(r@.len(), |j: int| r@[j]@) =~= active_users_of(
                                self@.take(i + 1),
                                document_id@,
                            ));
                        }
                    },
                }
            } else {
                proof {
                    assert(Seq::new(r@.len(), |j: int| r@[j]@) =~= active_users_of(
                        self@.take(i + 1),
                        document_id@,
                    ));
                }
            }
            i += 1;
        }
        proof {
            assert(self@.take(n as int) =~= self@);
        }
        r
    }

    /// Feeds one inbound client message through the synchronization
    /// protocol, at server time `now`.
    ///
    /// - A sync request registers and attaches the session and answers with
    ///   the updates the client is missing and the state vector.
    /// - An update from an attached session is merged and, on success,
    ///   fanned out to every other attached session of the document with
    ///   its origin and sequence number; a payload that does not merge is
    ///   answered with an error.
    /// - Join records presence and notifies the peers; leave removes the
    ///   session and notifies them; awareness is relayed verbatim.
    /// - A document operation from a session that never attached is
    ///   answered with a not-attached error.
    /// - A heartbeat only advances the session's last-seen time.
    pub fn handle_client_message_at(
        &mut self,
        svc: &mut DocumentService,
        msg: &ClientEnvelope,
        now: i64,
    )
        requires
            old(self).wf(),
            old(self)@.len() < usize::MAX,
            old(svc).wf(),
            old(svc)@.len() < usize::MAX,
            doc_chan_len(old(svc)@, msg.document_id@) < usize::MAX,
        ensures
            final(self).wf(),
            final(svc).wf(),
            protocol_step_post(old(self)@, final(self)@, old(svc)@, final(svc)@, *msg, now),
    {
        match &msg.message {
            ClientPayload::SyncRequest { state_vector } => {
                let h = self.ensure_session(&msg.document_id, &msg.client_id);
                let rr = svc.sync_snapshot(&msg.document_id, state_vector.as_slice());
                let ghost rr_g = rr;
                let payload = match rr {
                    Ok(p) => ServerPayload::SyncResponse { update_data: p.0, state_vector: p.1 },
                    Err(_) => decode_error_payload(),
                };
                let env = ServerEnvelope {
                    document_id: msg.document_id.clone(),
                    timestamp: now,
                    message: payload,
                };
                proof {
                    assert(env@ =~~= env_of(msg.document_id@, now, sync_reply_view(rr_g)));
                }
                let ghost mid = self@;
                self.attach_and_push(h, env);
                proof {
                    if hub_contains(old(self)@, msg.document_id@, msg.client_id@) {
                        assert(mid == old(self)@);
                        assert(entry_first_match(old(self)@, msg.document_id@, msg.client_id@,
                            h as int));
                        assert(self@[h as int] =~~= EntryView {
                            document_id: old(self)@[h as int].document_id,
                            client_id: old(self)@[h as int].client_id,
                            attached: true,
                            outbox: old(self)@[h as int].outbox.push(
                                env_of(msg.document_id@, now, sync_reply_view(rr_g)),
                            ),
                            presence: old(self)@[h as int].presence,
                        });
                    } else {
                        assert(self@.last() =~~= EntryView {
                            document_id: msg.document_id@,
                            client_id: msg.client_id@,
                            attached: true,
                            outbox: Seq::<EnvView>::empty().push(
                                env_of(msg.document_id@, now, sync_reply_view(rr_g)),
                            ),
                            presence: None,
                        });
                    }
                    assert(attach_reply_post(
                        old(self)@,
                        self@,
                        msg.document_id@,
                        msg.client_id@,
                        env_of(msg.document_id@, now, sync_reply_view(rr_g)),
                    ));
                    let ghost svv = state_vector@;
                    let hd = choose|hd: int|
                        #[trigger] sync_snapshot_post(
                            old(svc)@,
                            svc@,
                            msg.document_id@,
                            hd,
                            svv,
                            rr_g,
                        );
                    assert(sync_snapshot_post(
                        old(svc)@,
                        svc@,
                        msg.document_id@,
                        hd,
                        svv,
                        rr_g,
                    ));
                }
            },
            ClientPayload::Update { update_data } => {
                let h = self.ensure_session(&msg.document_id, &msg.client_id);
                proof {
                    lemma_attached_iff(self@, msg.document_id@, msg.client_id@, h as int);
                }
                if !self.entries[h].attached {
                    proof {
                        assert(!hub_attached(old(self)@, msg.document_id@, msg.client_id@));
                    }
                    let env = ServerEnvelope {
                        document_id: msg.document_id.clone(),
                        timestamp: now,
                        message: not_attached_payload(),
                    };
                    self.push_to_entry(h, env);
                    proof {
                        assert(not_attached_post(
                            old(self)@,
                            self@,
                            msg.document_id@,
                            msg.client_id@,
                            env_of(msg.document_id@, now, not_attached_view()),
                        ));
                    }
                } else {
                    proof {
                        assert(self@ == old(self)@);
                        assert(hub_attached(old(self)@, msg.document_id@, msg.client_id@));
                    }
                    let rr = svc.handle_binary_update(
                        &msg.document_id,
                        update_data.as_slice(),
                        &msg.client_id,
                    );
                    match rr {
                        Ok(_) => {
                            let seqno = svc.notification_count(&msg.document_id);
                            let env = ServerEnvelope {
                                document_id: msg.document_id.clone(),
                                timestamp: now,
                                message: ServerPayload::Update {
                                    update_data: clone_bytes(update_data.as_slice()),
                                    origin_client_id: msg.client_id.clone(),
                                    sequence_number: seqno,
                                },
                            };
                            let ghost envv = env@;
                            self.broadcast_to_document(&msg.document_id, &env, &msg.client_id);
                            proof {
                                assert(envv =~~= env_of(
                                    msg.document_id@,
                                    now,
                                    PayloadView::Update {
                                        update_data: update_data@,
                                        origin_client_id: msg.client_id@,
                                        sequence_number: doc_chan_len(svc@, msg.document_id@),
                                    },
                                ));
                                assert(applied_post(
                                    old(svc)@,
                                    svc@,
                                    msg.document_id@,
                                    update_data@,
                                    msg.client_id@,
                                    true,
                                ));
                            }
                        },
                        Err(_) => {
                            let env = ServerEnvelope {
                                document_id: msg.document_id.clone(),
                                timestamp: now,
                                message: decode_error_payload(),
                            };
                            self.push_to_entry(h, env);
                            proof {
                                assert(not_attached_post(
                                    old(self)@,
                                    self@,
                                    msg.document_id@,
                                    msg.client_id@,
                                    env_of(msg.document_id@, now, decode_error_view()),
                                ));
                                assert(applied_post(
                                    old(svc)@,
                                    svc@,
                                    msg.document_id@,
                                    update_data@,
                                    msg.client_id@,
                                    false,
                                ));
                            }
                        },
                    }
                }
            },
            ClientPayload::JoinDocument { user_id, user_name, user_color, metadata } => {
                let h = self.ensure_session(&msg.document_id, &msg.client_id);
                proof {
                    lemma_attached_iff(self@, msg.document_id@, msg.client_id@, h as int);
                }
                if !self.entries[h].attached {
                    let env = ServerEnvelope {
                        document_id: msg.document_id.clone(),
                        timestamp: now,
                        message: not_attached_payload(),
                    };
                    self.push_to_entry(h, env);
                    proof {
                        assert(not_attached_post(
                            old(self)@,
                            self@,
                            msg.document_id@,
                            msg.client_id@,
                            env_of(msg.document_id@, now, not_attached_view()),
                        ));
                    }
                } else {
                    let presence = UserPresence {
                        user_id: user_id.clone(),
                        user_name: user_name.clone(),
                        user_color: user_color.clone(),
                        client_id: msg.client_id.clone(),
                        last_seen: now,
                        metadata: duplicate_metadata(metadata),
                    };
                    let ghost pv = presence@;
                    self.set_presence(h, presence);
                    let env = ServerEnvelope {
                        document_id: msg.document_id.clone(),
                        timestamp: now,
                        message: ServerPayload::UserJoined {
                            user_id: user_id.clone(),
                            user_name: user_name.clone(),
                            user_color: user_color.clone(),
                            client_id: msg.client_id.clone(),
                        },
                    };
                    let ghost envv = env@;
                    let ghost mid2 = self@;
                    self.broadcast_to_document(&msg.document_id, &env, &msg.client_id);
                    proof {
                        assert(pv =~~= PresenceView {
                            user_id: user_id@,
                            user_name: user_name@,
                            user_color: user_color@,
                            client_id: msg.client_id@,
                            last_seen: now,
                            metadata: metadata_view(metadata@),
                        });
                        assert(envv =~~= env_of(
                            msg.document_id@,
                            now,
                            PayloadView::UserJoined {
                                user_id: user_id@,
                                user_name: user_name@,
                                user_color: user_color@,
                                client_id: msg.client_id@,
                            },
                        ));
                        assert(!targeted(mid2[h as int], msg.document_id@, msg.client_id@));
                        assert(self@[h as int] == mid2[h as int]);
                        assert(self@[h as int] =~~= EntryView {
                            document_id: old(self)@[h as int].document_id,
                            client_id: old(self)@[h as int].client_id,
                            attached: old(self)@[h as int].attached,
                            outbox: old(self)@[h as int].outbox,
                            presence: Some(pv),
                        });
                        assert forall|j: int|
                            0 <= j < old(self)@.len() && j != h implies (if targeted(
                            old(self)@[j],
                            msg.document_id@,
                            msg.client_id@,
                        ) {
                            self@[j] == with_push(old(self)@[j], envv)
                        } else {
                            self@[j] == old(self)@[j]
                        }) by {
                            assert(mid2[j] == old(self)@[j]);
                        }
                        assert(join_case_post_at(
                            old(self)@,
                            self@,
                            msg.document_id@,
                            msg.client_id@,
                            pv,
                            envv,
                            h as int,
                        ));
                        assert(join_case_post(
                            old(self)@,
                            self@,
                            msg.document_id@,
                            msg.client_id@,
                            pv,
                            envv,
                        ));
                    }
                }
            },
            ClientPayload::LeaveDocument { user_id } => {
                let h = self.ensure_session(&msg.document_id, &msg.client_id);
                proof {
                    lemma_attached_iff(self@, msg.document_id@, msg.client_id@, h as int);
                }
                if !self.entries[h].attached {
                    let env = ServerEnvelope {
                        document_id: msg.document_id.clone(),
                        timestamp: now,
                        message: not_attached_payload(),
                    };
                    self.push_to_entry(h, env);
                    proof {
                        assert(not_attached_post(
                            old(self)@,
                            self@,
                            msg.document_id@,
                            msg.client_id@,
                            env_of(msg.document_id@, now, not_attached_view()),
                        ));
                    }
                } else {
                    self.entries.remove(h);
                    proof {
                        assert(self@ =~= old(self)@.remove(h as int));
                        lemma_wf_after_remove(old(self)@, h as int);
                    }
                    let env = ServerEnvelope {
                        document_id: msg.document_id.clone(),
                        timestamp: now,
                        message: ServerPayload::UserLeft {
                            user_id: user_id.clone(),
                            client_id: msg.client_id.clone(),
                        },
                    };
                    let ghost envv = env@;
                    let ghost mid2 = self@;
                    self.broadcast_to_document(&msg.document_id, &env, &msg.client_id);
                    proof {
                        assert(envv =~~= env_of(
                            msg.document_id@,
                            now,
                            PayloadView::UserLeft {
                                user_id: user_id@,
                                client_id: msg.client_id@,
                            },
                        ));
                        assert forall|j: int| 0 <= j < h implies (if targeted(
                            old(self)@[j],
                            msg.document_id@,
                            msg.client_id@,
                        ) {
                            self@[j] == with_push(old(self)@[j], envv)
                        } else {
                            self@[j] == old(self)@[j]
                        }) by {
                            assert(mid2[j] == old(self)@[j]);
                        }
                        assert forall|j: int|
                            h < j < old(self)@.len() implies (if targeted(
                            old(self)@[j],
                            msg.document_id@,
                            msg.client_id@,
                        ) {
                            self@[j - 1] == with_push(old(self)@[j], envv)
                        } else {
                            self@[j - 1] == old(self)@[j]
                        }) by {
                            assert(mid2[j - 1] == old(self)@[j]);
                        }
                        assert(leave_case_post_at(
                            old(self)@,
                            self@,
                            msg.document_id@,
                            msg.client_id@,
                            envv,
                            h as int,
                        ));
                        assert(leave_case_post(
                            old(self)@,
                            self@,
                            msg.document_id@,
                            msg.client_id@,
                            envv,
                        ));
                    }
                }
            },
            ClientPayload::Awareness { awareness_state, timestamp } => {
                let h = self.ensure_session(&msg.document_id, &msg.client_id);
                proof {
                    lemma_attached_iff(self@, msg.document_id@, msg.client_id@, h as int);
                }
                if !self.entries[h].attached {
                    let env = ServerEnvelope {
                        document_id: msg.document_id.clone(),
                        timestamp: now,
                        message: not_attached_payload(),
                    };
                    self.push_to_entry(h, env);
                    proof {
                        assert(not_attached_post(
                            old(self)@,
                            self@,
                            msg.document_id@,
                            msg.client_id@,
                            env_of(msg.document_id@, now, not_attached_view()),
                        ));
                    }
                } else {
                    let env = ServerEnvelope {
                        document_id: msg.document_id.clone(),
                        timestamp: now,
                        message: ServerPayload::Awareness {
                            client_id: msg.client_id.clone(),
                            awareness_state: clone_bytes(awareness_state.as_slice()),
                            timestamp: *timestamp,
                        },
                    };
                    let ghost envv = env@;
                    self.broadcast_to_document(&msg.document_id, &env, &msg.client_id);
                    proof {
                        assert(envv =~~= env_of(
                            msg.document_id@,
                            now,
                            PayloadView::Awareness {
                                client_id: msg.client_id@,
                                awareness_state: awareness_state@,
                                timestamp: *timestamp,
                            },
                        ));
                    }
                }
            },
            ClientPayload::Heartbeat => {
                match self.find_entry(&msg.document_id, &msg.client_id) {
                    Some(h) => {
                        let refreshed = match &self.entries[h].presence {
                            Some(p) => Some(
                                UserPresence {
                                    user_id: p.user_id.clone(),
                                    user_name: p.user_name.clone(),
                                    user_color: p.user_color.clone(),
                                    client_id: p.client_id.clone(),
                                    last_seen: now,
                                    metadata: duplicate_metadata(&p.metadata),
                                },
                            ),
                            None => None,
                        };
                        match refreshed {
                            Some(p2) => {
                                let ghost pv2 = p2@;
                                self.set_presence(h, p2);
                                proof {
                                    assert(self@[h as int] =~~= (match old(self)@[h as int].presence {
                                        Some(p) => EntryView {
                                            document_id: old(self)@[h as int].document_id,
                                            client_id: old(self)@[h as int].client_id,
                                            attached: old(self)@[h as int].attached,
                                            outbox: old(self)@[h as int].outbox,
                                            presence: Some(
                                                PresenceView {
                                                    user_id: p.user_id,
                                                    user_name: p.user_name,
                                                    user_color: p.user_color,
                                                    client_id: p.client_id,
                                                    last_seen: now,
                                                    metadata: p.metadata,
                                                },
                                            ),
                                        },
                                        None => old(self)@[h as int],
                                    }));
                                    assert(heartbeat_case_post(
                                        old(self)@,
                                        self@,
                                        msg.document_id@,
                                        msg.client_id@,
                                        now,
                                    ));
                                }
                            },
                            None => {
                                proof {
                                    assert(heartbeat_case_post(
                                        old(self)@,
                                        self@,
                                        msg.document_id@,
                                        msg.client_id@,
                                        now,
                                    ));
                                }
                            },
                        }
                    },
                    None => {
                    },
                }
            },
        }
    }
}

/// A document's state as the unary query reports it: its state vector,
/// the full document as one update, the users present, and the time of
/// the query.
pub struct DocumentState {
    pub state_vector: Vec<u8>,
    pub document_data: Vec<u8>,
    pub active_users: Vec<UserPresence>,
    pub last_modified: i64,
}

impl StreamingSessions {
    /// Answers the unary document-state query: the document's state vector
    /// and full contents (creating it empty if absent), the users present
    /// in it, and the query time.
    pub fn get_document_state(&self, svc: &mut DocumentService, document_id: &String, now: i64)
        -> (r: DocumentState)
        requires
            old(svc).wf(),
            old(svc)@.len() < usize::MAX,
        ensures
            final(svc).wf(),
            exists|h: int|
                {
                    &&& #[trigger] crate::repository::get_or_create_post(
                        old(svc)@,
                        final(svc)@,
                        document_id@,
                        h,
                    )
                    &&& r.state_vector@ == final(svc)@[h].session@.doc.sv
                    &&& crate::crdt::is_state_vector_of(
                        final(svc)@[h].session@.doc.applied,
                        r.state_vector@,
                    )
                    &&& crate::crdt::is_full_update_of(
                        final(svc)@[h].session@.doc.applied,
                        r.document_data@,
                    )
                },
            Seq::new(r.active_users@.len(), |i: int| r.active_users@[i]@) == active_users_of(
                self@,
                document_id@,
            ),
            r.last_modified == now,
    {
        let empty: Vec<u8> = Vec::new();
        let rr = svc.sync_snapshot(document_id, empty.as_slice());
        let (document_data, state_vector) = match rr {
            Ok(p) => p,
            Err(_) => (Vec::new(), Vec::new()),
        };
        let active_users = self.get_active_users_for_document(document_id);
        proof {
            let h = choose|h: int|
                #[trigger] sync_snapshot_post(
                    old(svc)@,
                    svc@,
                    document_id@,
                    h,
                    Seq::<u8>::empty(),
                    rr,
                );
            assert(crate::repository::get_or_create_post(old(svc)@, svc@, document_id@, h));
        }
        DocumentState { state_vector, document_data, active_users, last_modified: now }
    }

    /// Feeds one inbound client message through the protocol at the
    /// current wall-clock time.
    pub fn handle_client_message(&mut self, svc: &mut DocumentService, msg: &ClientEnvelope)
        requires
            old(self).wf(),
            old(self)@.len() < usize::MAX,
            old(svc).wf(),
            old(svc)@.len() < usize::MAX,
            doc_chan_len(old(svc)@, msg.document_id@) < usize::MAX,
        ensures
            final(self).wf(),
            final(svc).wf(),
            exists|now: i64|
                #[trigger] protocol_step_post(
                    old(self)@,
                    final(self)@,
                    old(svc)@,
                    final(svc)@,
                    *msg,
                    now,
                ),
    {
        let now = current_timestamp();
        self.handle_client_message_at(svc, msg, now);
        proof {
            assert(protocol_step_post(old(self)@, self@, old(svc)@, svc@, *msg, now));
        }
    }
}

/// Relies on `chrono::Utc::now` for the wall-clock reading; the value
/// depends on the clock, so nothing is assumed of it.
#[verifier::external_body]
fn current_timestamp() -> i64 {
    chrono::Utc::now().timestamp()
}

/// Error payload for a payload that does not decode or merge.
fn decode_error_payload() -> (r: ServerPayload)
    ensures
        r@ == decode_error_view(),
{
    let r = ServerPayload::Error {
        error_code: 400,
        error_message: String::from_str("payload could not be decoded or merged"),
        kind: ServiceError::DecodeError,
    };
    proof {
        assert(r@ =~= decode_error_view());
    }
    r
}

/// Error payload for a document operation from an unattached session.
fn not_attached_payload() -> (r: ServerPayload)
    ensures
        r@ == not_attached_view(),
{
    let r = ServerPayload::Error {
        error_code: 409,
        error_message: String::from_str("session is not attached to a document"),
        kind: ServiceError::NotAttached,
    };
    proof {
        assert(r@ =~= not_attached_view());
    }
    r
}

/// A registry in which no session's presence names the user `u` lists no
/// presence of `u` for any document.
pub proof fn lemma_active_users_excludes(s: Seq<EntryView>, d: Seq<char>, u: Seq<char>)
    requires
        forall|j: int|
            0 <= j < s.len() ==> ((#[trigger] s[j].presence) matches Some(p) ==> p.user_id
                != u),
    ensures
        forall|i: int|
            0 <= i < active_users_of(s, d).len() ==> (#[trigger] active_users_of(s, d)[i]).user_id != u,
    decreases s.len(),
{
    if s.len() > 0 {
        assert(forall|j: int|
            0 <= j < s.drop_last().len() ==> s.drop_last()[j] == s[j]);
        lemma_active_users_excludes(s.drop_last(), d, u);
        let rest = active_users_of(s.drop_last(), d);
        let e = s.last();
        assert(e == s[s.len() - 1]);
        assert forall|i: int|
            0 <= i < active_users_of(s, d).len() implies (#[trigger] active_users_of(
            s,
            d,
        )[i]).user_id != u by {
            if e.document_id == d && e.presence is Some {
                assert(active_users_of(s, d) == rest.push(e.presence->0));
                if i < rest.len() {
                    assert(active_users_of(s, d)[i] == rest[i]);
                } else {
                    assert(active_users_of(s, d)[i] == e.presence->0);
                }
            } else {
                assert(active_users_of(s, d) == rest);
            }
        }
    }
}

/// Presence consistency: after the user `u` joins document `d` on the
/// connection `(d, c)` and then leaves on the same connection, the
/// document's active users no longer list `u` — provided no other
/// connection carried a presence for `u` to begin with, and session keys
/// are unique, as the registry keeps them.
pub proof fn lemma_presence_consistency(
    s0: Seq<EntryView>,
    s1: Seq<EntryView>,
    s2: Seq<EntryView>,
    d: Seq<char>,
    c: Seq<char>,
    u: Seq<char>,
    pv: PresenceView,
    mj: EnvView,
    ml: EnvView,
)
    requires
        forall|i: int, j: int|
            0 <= i < j < s0.len() ==> !(s0[i].document_id == s0[j].document_id
                && s0[i].client_id == s0[j].client_id),
        pv.user_id == u,
        join_case_post(s0, s1, d, c, pv, mj),
        leave_case_post(s1, s2, d, c, ml),
        forall|j: int|
            0 <= j < s0.len() && !entry_key_is(s0[j], d, c) ==> ((#[trigger] s0[j].presence)
                matches Some(p) ==> p.user_id != u),
    ensures
        forall|i: int|
            0 <= i < active_users_of(s2, d).len() ==> (#[trigger] active_users_of(s2, d)[i]).user_id != u,
{
    let k1 = choose|k: int| #[trigger] join_case_post_at(s0, s1, d, c, pv, mj, k);
    let k2 = choose|k: int| #[trigger] leave_case_post_at(s1, s2, d, c, ml, k);
    assert(entry_first_match(s0, d, c, k1));
    assert(entry_first_match(s1, d, c, k2));
    assert forall|j: int|
        0 <= j < s0.len() implies s1[j].document_id == s0[j].document_id && s1[j].client_id
        == s0[j].client_id by {
        if j != k1 {
            assert(s1[j] == s0[j] || s1[j] == with_push(s0[j], mj));
        }
    }
    assert(k2 == k1) by {
        if k2 < k1 {
            assert(entry_key_is(s1[k2], d, c));
            assert(entry_key_is(s0[k2], d, c));
        } else if k2 > k1 {
            assert(entry_key_is(s1[k1], d, c));
        }
    }
    assert forall|j: int|
        0 <= j < s2.len() implies ((#[trigger] s2[j].presence) matches Some(p) ==> p.user_id
        != u) by {
        let j0: int = if j < k1 {
            j
        } else {
            j + 1
        };
        assert(s2[j] == s1[j0] || s2[j] == with_push(s1[j0], ml));
        assert(s2[j].presence == s1[j0].presence);
        assert(j0 != k1);
        assert(s1[j0] == s0[j0] || s1[j0] == with_push(s0[j0], mj));
        assert(s1[j0].presence == s0[j0].presence);
        assert(!entry_key_is(s0[j0], d, c)) by {
            if entry_key_is(s0[j0], d, c) {
                if j0 < k1 {
                    assert(!(s0[j0].document_id == s0[k1].document_id && s0[j0].client_id
                        == s0[k1].client_id));
                } else {
                    assert(!(s0[k1].document_id == s0[j0].document_id && s0[k1].client_id
                        == s0[j0].client_id));
                }
            }
        }
    }
    lemma_active_users_excludes(s2, d, u);
}

} // verus!
