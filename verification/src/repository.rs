//! In-memory document registry.
//!
//! A process-wide map from document id to its live session, with
//! get-or-create as the primary access path: looking up an id that is not
//! present creates exactly one empty session for it, and later lookups of
//! the same id return that same session.  Handles are indexes into the
//! registry, valid until an entry is deleted; callers that span deletes
//! look sessions up by id again.

use vstd::prelude::*;

use crate::broadcast::{ChannelView, NoteView, Subscription, UpdateNotification};
use crate::crdt::{is_diff_of, is_full_update_of, is_state_vector_of, same_state_vector,
    update_applies, valid_state_vector, wf_update, DocError};
use crate::document_service::{SingleDocumentService, CHANNEL_CAPACITY};

verus! {

/// Registry-level errors for the explicit create/delete administrative
/// operations; `get_or_create` never fails.
#[derive(Clone, Copy, PartialEq, Eq, Structural, Debug)]
pub enum RegistryError {
    AlreadyExists,
    NotFound,
}

/// One registry entry: a document id and the session that owns the
/// document's state.
pub struct DocEntry {
    pub id: String,
    pub session: SingleDocumentService,
}

/// Whether some entry carries the id `id`.
pub open spec fn contains_id(entries: Seq<DocEntry>, id: Seq<char>) -> bool {
    exists|i: int| 0 <= i < entries.len() && entries[i].id@ == id
}

/// No two entries carry the same id.
pub open spec fn ids_unique(entries: Seq<DocEntry>) -> bool {
    forall|i: int, j: int| 0 <= i < j < entries.len() ==> entries[i].id@ != entries[j].id@
}

/// Every session in the registry is internally consistent.
pub open spec fn sessions_wf(entries: Seq<DocEntry>) -> bool {
    forall|i: int| 0 <= i < entries.len() ==> entries[i].session.wf()
}

/// What `get_or_create` does: when `id` is already present, the registry is
/// unchanged and `h` is its (first, hence only) index; otherwise one fresh
/// empty session for `id` is appended at `h`, and every other entry is
/// untouched.
pub open spec fn get_or_create_post(
    before: Seq<DocEntry>,
    after: Seq<DocEntry>,
    id: Seq<char>,
    h: int,
) -> bool {
    &&& 0 <= h < after.len()
    &&& after[h].id@ == id
    &&& forall|j: int| 0 <= j < h ==> after[j].id@ != id
    &&& if contains_id(before, id) {
        after == before
    } else {
        &&& h == before.len()
        &&& after.len() == before.len() + 1
        &&& forall|j: int| 0 <= j < before.len() ==> after[j] == before[j]
        &&& after[h].session@.doc.applied == Set::<Seq<u8>>::empty()
        &&& after[h].session@.chan.sent == Seq::<NoteView>::empty()
        &&& after[h].session@.chan.cap == CHANNEL_CAPACITY as nat
    }
}

/// `h` is the index of the entry for `id` — necessarily the only one in a
/// well-formed registry, and the first one in any case.
pub open spec fn first_match(entries: Seq<DocEntry>, id: Seq<char>, h: int) -> bool {
    &&& 0 <= h < entries.len()
    &&& entries[h].id@ == id
    &&& forall|j: int| 0 <= j < h ==> entries[j].id@ != id
}

/// How one session changes when the update `upd` from `origin` is handed
/// to it: exactly on success — owed whenever the payload is already merged
/// — the update joins the document and one notification is published; no
/// failure publishes anything, and a payload that does not even decode
/// changes nothing.
pub open spec fn session_applied(
    s1: crate::document_service::SessionView,
    s2: crate::document_service::SessionView,
    upd: Seq<u8>,
    origin: Seq<char>,
    ok: bool,
) -> bool {
    &&& ok == update_applies(s1.doc.applied, upd)
    &&& s1.doc.applied.contains(upd) ==> ok
    &&& s2.chan.cap == s1.chan.cap
    &&& if ok {
        s2.doc.applied == s1.doc.applied.insert(upd) && s2.chan.sent == s1.chan.sent.push(
            NoteView { update: upd, source: origin },
        )
    } else {
        s2.chan == s1.chan && (!wf_update(upd) ==> s2.doc == s1.doc)
    }
}

/// The view of a session no document has been created for yet; `sv0` is
/// whatever encoding of the empty state vector its container holds.
pub open spec fn fresh_session_view(sv0: Seq<u8>) -> crate::document_service::SessionView {
    crate::document_service::SessionView {
        doc: crate::crdt::DocView { applied: Set::<Seq<u8>>::empty(), sv: sv0 },
        chan: ChannelView { sent: Seq::<NoteView>::empty(), cap: CHANNEL_CAPACITY as nat },
    }
}

/// What applying `upd` to the document `id` does to the whole registry:
/// the document's entry (created fresh if absent) evolves as
/// `session_applied` says, and every other entry is untouched.
pub open spec fn applied_post(
    before: Seq<DocEntry>,
    after: Seq<DocEntry>,
    id: Seq<char>,
    upd: Seq<u8>,
    origin: Seq<char>,
    ok: bool,
) -> bool {
    if contains_id(before, id) {
        exists|h: int|
            {
                &&& first_match(before, id, h)
                &&& after.len() == before.len()
                &&& forall|j: int| 0 <= j < before.len() && j != h ==> after[j] == before[j]
                &&& after[h].id == before[h].id
                &&& session_applied(before[h].session@, after[h].session@, upd, origin, ok)
            }
    } else {
        &&& after.len() == before.len() + 1
        &&& forall|j: int| 0 <= j < before.len() ==> after[j] == before[j]
        &&& after.last().id@ == id
        &&& exists|sv0: Seq<u8>|
            #[trigger] session_applied(fresh_session_view(sv0), after.last().session@, upd, origin, ok)
    }
}

/// What deleting the document `id` does to the registry: the entry that
/// carried it is removed, everything else stays.
pub open spec fn removed_post(before: Seq<DocEntry>, after: Seq<DocEntry>, id: Seq<char>) -> bool {
    exists|i: int|
        {
            &&& 0 <= i < before.len()
            &&& before[i].id@ == id
            &&& after == before.remove(i)
        }
}

/// What one `recv` on the subscription delivers from the session at index
/// `h`: the first notification at or after the cursor that is still
/// buffered and not the receiver's own, with the cursor advanced past it.
pub open spec fn recv_post_at(
    entries: Seq<DocEntry>,
    h: int,
    sub0: Subscription,
    sub1: Subscription,
    r: Option<UpdateNotification>,
) -> bool {
    let c = entries[h].session@.chan;
    let eff = crate::broadcast::int_max(sub0.spec_cursor(), c.start());
    &&& sub1.spec_client() == sub0.spec_client()
    &&& match crate::broadcast::next_visible(c, sub0.spec_client(), eff) {
        Some(i) => {
            &&& r matches Some(n) && n@ == c.sent[i]
            &&& sub1.spec_cursor() == i + 1
        },
        None => {
            &&& r is None
            &&& sub1.spec_cursor() == crate::broadcast::int_max(eff, c.sent.len() as int)
        },
    }
}

/// The in-memory registry of collaborative documents.
pub struct InMemoryDocumentRepository {
    entries: Vec<DocEntry>,
}

impl View for InMemoryDocumentRepository {
    type V = Seq<DocEntry>;

    closed spec fn view(&self) -> Seq<DocEntry> {
        self.entries@
    }
}

impl InMemoryDocumentRepository {
    /// Ids are unique and every session is internally consistent.
    pub open spec fn wf(self) -> bool {
        ids_unique(self@) && sessions_wf(self@)
    }

    /// Creates an empty registry.
    pub fn new() -> (r: Self)
        ensures
            r.wf(),
            r@ == Seq::<DocEntry>::empty(),
    {
        InMemoryDocumentRepository { entries: Vec::new() }
    }

    /// Index of the entry for `doc_id`, if present.
    pub fn find_index(&self, doc_id: &String) -> (r: Option<usize>)
        ensures
            match r {
                Some(i) => {
                    &&& 0 <= i < self@.len()
                    &&& self@[i as int].id@ == doc_id@
                    &&& forall|j: int| 0 <= j < i ==> self@[j].id@ != doc_id@
                },
                None => !contains_id(self@, doc_id@),
            },
    {
        let n = self.entries.len();
        let mut i: usize = 0;
        while i < n
            invariant
                n == self@.len(),
                0 <= i <= n,
                forall|j: int| 0 <= j < i ==> self@[j].id@ != doc_id@,
            decreases n - i,
        {
            if self.entries[i].id == *doc_id {
                return Some(i);
            }
            i += 1;
        }
        None
    }

    /// Checks if a document exists.
    pub fn has_document(&self, doc_id: &String) -> (r: bool)
        ensures
            r == contains_id(self@, doc_id@),
    {
        self.find_index(doc_id).is_some()
    }

    /// The number of documents in the registry.
    pub fn count(&self) -> (r: usize)
        ensures
            r == self@.len(),
    {
        self.entries.len()
    }

    /// Retrieves the handle of an existing document.
    pub fn get_document(&self, doc_id: &String) -> (r: Option<usize>)
        ensures
            r is Some <==> contains_id(self@, doc_id@),
            r matches Some(h) ==> 0 <= h < self@.len() && self@[h as int].id@ == doc_id@,
    {
        self.find_index(doc_id)
    }

    /// Retrieves the handle for `doc_id`, creating exactly one fresh empty
    /// session for it when it is not present yet.  Never fails.
    pub fn get_or_create(&mut self, doc_id: &String) -> (r: usize)
        requires
            old(self).wf(),
            old(self)@.len() < usize::MAX,
        ensures
            final(self).wf(),
            get_or_create_post(old(self)@, final(self)@, doc_id@, r as int),
    {
        match self.find_index(doc_id) {
            Some(i) => i,
            None => {
                let h = self.entries.len();
                self.entries.push(
                    DocEntry { id: doc_id.clone(), session: SingleDocumentService::new() },
                );
                h
            },
        }
    }

    /// Creates a new document, failing when the id is already taken.
    pub fn create_document(&mut self, doc_id: &String) -> (r: Result<usize, RegistryError>)
        requires
            old(self).wf(),
            old(self)@.len() < usize::MAX,
        ensures
            final(self).wf(),
            r is Ok <==> !contains_id(old(self)@, doc_id@),
            r matches Ok(h) ==> get_or_create_post(old(self)@, final(self)@, doc_id@, h as int),
            r is Err ==> final(self)@ == old(self)@ && r == Err::<usize, RegistryError>(
                RegistryError::AlreadyExists,
            ),
    {
        match self.find_index(doc_id) {
            Some(_) => Err(RegistryError::AlreadyExists),
            None => {
                let h = self.entries.len();
                self.entries.push(
                    DocEntry { id: doc_id.clone(), session: SingleDocumentService::new() },
                );
                Ok(h)
            },
        }
    }

    /// Replaces the session of an existing document.
    pub fn update_document(&mut self, doc_id: &String, document: SingleDocumentService) -> (r:
        Result<(), RegistryError>)
        requires
            old(self).wf(),
            document.wf(),
        ensures
            final(self).wf(),
            r is Ok <==> contains_id(old(self)@, doc_id@),
            r is Ok ==> {
                &&& final(self)@.len() == old(self)@.len()
                &&& exists|i: int|
                    {
                        &&& 0 <= i < old(self)@.len()
                        &&& old(self)@[i].id@ == doc_id@
                        &&& final(self)@[i].id == old(self)@[i].id
                        &&& final(self)@[i].session == document
                        &&& forall|j: int|
                            0 <= j < old(self)@.len() && j != i ==> final(self)@[j]
                                == old(self)@[j]
                    }
            },
            r is Err ==> final(self)@ == old(self)@ && r == Err::<(), RegistryError>(
                RegistryError::NotFound,
            ),
    {
        match self.find_index(doc_id) {
            Some(i) => {
                let entry = self.entries.remove(i);
                self.entries.insert(i, DocEntry { id: entry.id, session: document });
                proof {
                    assert(forall|j: int|
                        0 <= j < old(self)@.len() && j != i ==> final(self)@[j] == old(self)@[j]);
                }
                Ok(())
            },
            None => Err(RegistryError::NotFound),
        }
    }

    /// Deletes a document: its entry leaves the registry and the id becomes
    /// free again.  Handles are indexes, so any handle obtained before a
    /// delete must not be used after it; callers look sessions up by id
    /// again instead.
    pub fn delete_document(&mut self, doc_id: &String) -> (r: Result<(), RegistryError>)
        requires
            old(self).wf(),
        ensures
            final(self).wf(),
            r is Ok <==> contains_id(old(self)@, doc_id@),
            r is Ok ==> removed_post(old(self)@, final(self)@, doc_id@),
            r is Err ==> final(self)@ == old(self)@ && r == Err::<(), RegistryError>(
                RegistryError::NotFound,
            ),
    {
        match self.find_index(doc_id) {
            Some(i) => {
                self.entries.remove(i);
                proof {
                    assert(final(self)@ == old(self)@.remove(i as int));
                }
                Ok(())
            },
            None => Err(RegistryError::NotFound),
        }
    }

    /// Lists all document ids.
    pub fn list_documents(&self) -> (r: Vec<String>)
        ensures
            r@.len() == self@.len(),
            forall|i: int| 0 <= i < self@.len() ==> r@[i]@ == self@[i].id@,
    {
        let n = self.entries.len();
        let mut r: Vec<String> = Vec::new();
        let mut i: usize = 0;
        while i < n
            invariant
                n == self@.len(),
                0 <= i <= n,
                r@.len() == i,
                forall|j: int| 0 <= j < i ==> r@[j]@ == self@[j].id@,
            decreases n - i,
        {
            r.push(self.entries[i].id.clone());
            i += 1;
        }
        r
    }

    /// Removes every document.
    pub fn clear(&mut self) -> (r: Result<(), RegistryError>)
        ensures
            final(self).wf(),
            final(self)@ == Seq::<DocEntry>::empty(),
            r is Ok,
    {
        self.entries.clear();
        Ok(())
    }

    /// The encoded state vector of the document at handle `h`: the one
    /// encoding its session holds and hands out consistently.
    pub fn state_vector_at(&self, h: usize) -> (r: Vec<u8>)
        requires
            self.wf(),
            h < self@.len(),
        ensures
            r@ == self@[h as int].session@.doc.sv,
            is_state_vector_of(self@[h as int].session@.doc.applied, r@),
            valid_state_vector(r@),
    {
        self.entries[h].session.get_state_vector()
    }

    /// The encoded update reproducing the whole document at handle `h`.
    pub fn full_update_at(&self, h: usize) -> (r: Vec<u8>)
        requires
            self.wf(),
            h < self@.len(),
        ensures
            is_full_update_of(self@[h as int].session@.doc.applied, r@),
    {
        self.entries[h].session.get_full_update()
    }

    /// The number of notifications ever published for the document at `h`.
    pub fn notification_count_at(&self, h: usize) -> (r: usize)
        requires
            self.wf(),
            h < self@.len(),
        ensures
            r == self@[h as int].session@.chan.sent.len(),
    {
        self.entries[h].session.notification_count()
    }

    /// Merges an update into the document at handle `h` and publishes one
    /// notification carrying the payload and its origin; no failure
    /// publishes anything, and a payload that does not decode changes
    /// nothing.
    pub fn apply_update_at(&mut self, h: usize, update: &[u8], origin: &String) -> (r: Result<
        (),
        DocError,
    >)
        requires
            old(self).wf(),
            h < old(self)@.len(),
            old(self)@[h as int].session@.chan.sent.len() < usize::MAX,
        ensures
            final(self).wf(),
            final(self)@.len() == old(self)@.len(),
            forall|j: int|
                0 <= j < old(self)@.len() && j != h ==> final(self)@[j] == old(self)@[j],
            final(self)@[h as int].id == old(self)@[h as int].id,
            final(self)@[h as int].session@.chan.cap == old(self)@[h as int].session@.chan.cap,
            r is Ok <==> update_applies(old(self)@[h as int].session@.doc.applied, update@),
            old(self)@[h as int].session@.doc.applied.contains(update@) ==> r is Ok,
            r is Ok ==> final(self)@[h as int].session@.doc.applied
                == old(self)@[h as int].session@.doc.applied.insert(update@)
                && final(self)@[h as int].session@.chan.sent
                == old(self)@[h as int].session@.chan.sent.push(
                NoteView { update: update@, source: origin@ },
            ),
            r is Err ==> final(self)@[h as int].session@.chan
                == old(self)@[h as int].session@.chan
                && r == Err::<(), DocError>(DocError::DecodeError),
            !wf_update(update@) && r is Err ==> final(self)@[h as int].session@.doc
                == old(self)@[h as int].session@.doc,
    {
        let mut entry = self.entries.remove(h);
        let r = entry.session.apply_update(update, origin);
        self.entries.insert(h, entry);
        proof {
            assert(forall|j: int|
                0 <= j < old(self)@.len() && j != h ==> final(self)@[j] == old(self)@[j]);
        }
        r
    }

    /// The update the remote replica at `client_state` is missing from the
    /// document at handle `h`: empty exactly when the remote's vector
    /// equals the document's.
    pub fn missing_updates_at(&self, h: usize, client_state: &[u8]) -> (r: Result<Vec<u8>, DocError>)
        requires
            self.wf(),
            h < self@.len(),
        ensures
            r is Ok <==> valid_state_vector(client_state@),
            r matches Ok(d) ==> if same_state_vector(
                client_state@,
                self@[h as int].session@.doc.sv,
            ) {
                d@ == Seq::<u8>::empty()
            } else {
                is_diff_of(self@[h as int].session@.doc.applied, client_state@, d@)
                    && d@.len() > 0
            },
            r is Err ==> r == Err::<Vec<u8>, DocError>(DocError::DecodeError),
    {
        self.entries[h].session.get_missing_updates(client_state)
    }

    /// A new subscription to the document at handle `h` for `client`,
    /// positioned after everything already published.
    pub fn subscribe_at(&self, h: usize, client: &String) -> (r: Subscription)
        requires
            self.wf(),
            h < self@.len(),
        ensures
            r.spec_client() == client@,
            r.spec_cursor() == self@[h as int].session@.chan.sent.len(),
    {
        self.entries[h].session.subscribe(client)
    }

    /// Delivers the next pending notification of the document at handle `h`
    /// to the given subscription, as the session's channel defines it.
    pub fn recv_at(&self, h: usize, sub: &mut Subscription) -> (r: Option<UpdateNotification>)
        requires
            self.wf(),
            h < self@.len(),
        ensures
            recv_post_at(self@, h as int, *old(sub), *final(sub), r),
            r matches Some(n) ==> n@.source != old(sub).spec_client(),
    {
        self.entries[h].session.recv(sub)
    }
}

/// Idempotent get-or-create: a second `get_or_create` of the same id right
/// after a first returns the same handle and leaves the registry exactly as
/// the first left it — both callers observe one shared session.
pub proof fn lemma_get_or_create_idempotent(
    s0: Seq<DocEntry>,
    s1: Seq<DocEntry>,
    s2: Seq<DocEntry>,
    id: Seq<char>,
    h1: int,
    h2: int,
)
    requires
        get_or_create_post(s0, s1, id, h1),
        get_or_create_post(s1, s2, id, h2),
    ensures
        s2 == s1,
        h2 == h1,
{
    assert(contains_id(s1, id));
}

} // verus!
