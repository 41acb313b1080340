//! Per-document CRDT state container.
//!
//! A document's merge state is held by the external CRDT capability (the
//! `yrs` crate).  The container models that state as the set of update
//! payloads merged so far: merging is idempotent and commutative, so the
//! logical document — and everything decoded from its encodings — is a
//! function of that set alone.  The byte encodings themselves are not:
//! the capability may serialize the same logical state in more than one
//! byte order.  The trusted interface therefore speaks in relations
//! ("these bytes encode the state vector of this set", "these bytes carry
//! what this remote is missing"), and the container additionally keeps the
//! one encoding of its own state vector that it hands out, so that its
//! callers' contracts can pin exact bytes where the protocol needs them.

use vstd::prelude::*;

use yrs::updates::decoder::Decode;
use yrs::updates::encoder::Encode;
use yrs::{Doc, ReadTxn, StateVector, Transact, Update};

verus! {

/// Error returned when a binary payload handed to the container cannot be
/// decoded or merged.
#[derive(Clone, Copy, PartialEq, Eq, Structural, Debug)]
pub enum DocError {
    DecodeError,
}

#[verifier::external_type_specification]
#[verifier::external_body]
pub struct ExDoc(Doc);

/// Whether `sv` is an encoding of the state vector — the summary of all
/// causal history incorporated — of a document whose merged-update set is
/// `applied`.  The logical vector is a function of the set; its byte
/// encoding is not unique, so this is a relation.
pub uninterp spec fn is_state_vector_of(applied: Set<Seq<u8>>, sv: Seq<u8>) -> bool;

/// Whether `d` encodes an update carrying exactly what a replica at state
/// vector `remote` is missing relative to a document whose merged-update
/// set is `applied`.
pub uninterp spec fn is_diff_of(applied: Set<Seq<u8>>, remote: Seq<u8>, d: Seq<u8>) -> bool;

/// Whether `d` encodes an update that reproduces, on an empty replica, the
/// whole document whose merged-update set is `applied`.
pub uninterp spec fn is_full_update_of(applied: Set<Seq<u8>>, d: Seq<u8>) -> bool;

/// Whether the payload `update` decodes and merges into a document whose
/// merged-update set is `applied`.
pub uninterp spec fn update_applies(applied: Set<Seq<u8>>, update: Seq<u8>) -> bool;

/// Whether the payload decodes as an update at all — a function of the
/// bytes alone.
pub uninterp spec fn wf_update(update: Seq<u8>) -> bool;

/// Whether the bytes decode as a state vector.
pub uninterp spec fn valid_state_vector(sv: Seq<u8>) -> bool;

/// Whether two state-vector encodings decode to the same logical vector.
pub uninterp spec fn same_state_vector(a: Seq<u8>, b: Seq<u8>) -> bool;

/// Mathematical image of a document: the set of updates merged so far, and
/// the encoding of its state vector that the container currently hands out.
#[verifier::ext_equal]
pub struct DocView {
    pub applied: Set<Seq<u8>>,
    pub sv: Seq<u8>,
}

/// One collaborative document: an opaque CRDT instance, the mathematical
/// model of what has been merged into it, and the encoded state vector the
/// container last read from it.
pub struct CollaborativeDocument {
    doc: Doc,
    applied: Ghost<Set<Seq<u8>>>,
    state_vector: Vec<u8>,
}

impl View for CollaborativeDocument {
    type V = DocView;

    closed spec fn view(&self) -> DocView {
        DocView { applied: self.applied@, sv: self.state_vector@ }
    }
}

impl CollaborativeDocument {
    /// The held encoding is a valid encoding of this document's state
    /// vector.
    pub closed spec fn wf(self) -> bool {
        &&& is_state_vector_of(self@.applied, self@.sv)
        &&& valid_state_vector(self@.sv)
    }

    /// Relies on `yrs::Doc::new` to create a fresh document instance that
    /// has merged nothing.
    #[verifier::external_body]
    fn crdt_doc_new() -> Doc {
        Doc::new()
    }

    /// Relies on `yrs`: `Transact::transact`, `ReadTxn::state_vector` and
    /// `StateVector::encode_v1` read and encode the document's state
    /// vector.  The logical vector is a function of the merged updates;
    /// the bytes produced are one valid encoding of it, accepted back by
    /// `StateVector::decode_v1`.
    #[verifier::external_body]
    fn crdt_encode_state_vector(&self) -> (r: Vec<u8>)
        ensures
            is_state_vector_of(self@.applied, r@),
            valid_state_vector(r@),
    {
        let txn = self.doc.transact();
        let sv = txn.state_vector();
        sv.encode_v1()
    }

    /// Relies on `yrs`: `Update::decode_v1` accepts or rejects the payload
    /// deterministically, and `TransactionMut::apply_update` merges it,
    /// ignoring blocks already present (so re-delivery succeeds); both
    /// outcomes depend only on the payload and on the updates merged so
    /// far.  A payload that does not decode changes nothing; one that
    /// decodes but is rejected part-way through the merge may leave some
    /// of its blocks behind, so nothing is claimed of the merged set then.
    /// The state-vector encoding is re-read after every merge attempt.
    /// (The merge is also relied on to return: its internal clock
    /// arithmetic is wrapping in release builds.)
    #[verifier::external_body]
    fn crdt_apply(&mut self, update: &[u8]) -> (r: bool)
        requires
            old(self).wf(),
        ensures
            final(self).wf(),
            r == update_applies(old(self)@.applied, update@),
            old(self)@.applied.contains(update@) ==> r,
            !wf_update(update@) ==> !r,
            r ==> final(self)@.applied == old(self)@.applied.insert(update@),
            !wf_update(update@) ==> final(self)@ == old(self)@,
    {
        match Update::decode_v1(update) {
            Ok(decoded) => {
                let ok = {
                    let mut txn = self.doc.transact_mut();
                    txn.apply_update(decoded).is_ok()
                };
                self.state_vector = {
                    let txn = self.doc.transact();
                    txn.state_vector().encode_v1()
                };
                ok
            },
            Err(_) => false,
        }
    }

    /// Relies on `yrs`: `StateVector::decode_v1` accepts or rejects bytes
    /// deterministically, and `ReadTxn::encode_state_as_update_v1` encodes
    /// the updates the remote replica is missing — never the empty byte
    /// string, since the encoder always writes its section counts.
    #[verifier::external_body]
    fn crdt_encode_diff(&self, remote: &[u8]) -> (r: Option<Vec<u8>>)
        ensures
            r is Some <==> valid_state_vector(remote@),
            r matches Some(d) ==> is_diff_of(self@.applied, remote@, d@) && d@.len() > 0,
    {
        match StateVector::decode_v1(remote) {
            Ok(sv) => {
                let txn = self.doc.transact();
                Some(txn.encode_state_as_update_v1(&sv))
            },
            Err(_) => None,
        }
    }

    /// Relies on `yrs`: `ReadTxn::encode_state_as_update_v1` against the
    /// empty (default) state vector encodes everything an empty replica is
    /// missing — the whole document.
    #[verifier::external_body]
    fn crdt_encode_full(&self) -> (r: Vec<u8>)
        ensures
            is_full_update_of(self@.applied, r@),
    {
        let txn = self.doc.transact();
        txn.encode_state_as_update_v1(&StateVector::default())
    }

    /// Relies on `yrs`: `StateVector::decode_v1` on both inputs and the
    /// derived equality of the decoded vectors — a function of the two
    /// byte strings alone.
    #[verifier::external_body]
    fn crdt_same_state_vector(a: &[u8], b: &[u8]) -> (r: Option<bool>)
        ensures
            r is Some <==> (valid_state_vector(a@) && valid_state_vector(b@)),
            r matches Some(eq) ==> eq == same_state_vector(a@, b@),
    {
        match (StateVector::decode_v1(a), StateVector::decode_v1(b)) {
            (Ok(sa), Ok(sb)) => Some(sa == sb),
            _ => None,
        }
    }

    /// Creates a new, empty collaborative document.
    pub fn new() -> (r: Self)
        ensures
            r.wf(),
            r@.applied == Set::<Seq<u8>>::empty(),
    {
        let doc = Self::crdt_doc_new();
        let mut r = CollaborativeDocument {
            doc,
            applied: Ghost(Set::empty()),
            state_vector: Vec::new(),
        };
        r.state_vector = r.crdt_encode_state_vector();
        r
    }

    /// Retrieves the document's current encoded state vector: the one
    /// encoding this container holds and hands out consistently.
    pub fn get_state_vector(&self) -> (r: Vec<u8>)
        requires
            self.wf(),
        ensures
            r@ == self@.sv,
            is_state_vector_of(self@.applied, r@),
            valid_state_vector(r@),
    {
        clone_bytes(self.state_vector.as_slice())
    }

    /// The encoded update that reproduces the whole document on an empty
    /// replica.
    pub fn get_full_update(&self) -> (r: Vec<u8>)
        ensures
            is_full_update_of(self@.applied, r@),
    {
        self.crdt_encode_full()
    }

    /// Merges a remote update into the document and returns the new state
    /// vector.  Merging is idempotent: a payload already merged succeeds
    /// again and adds nothing.  A payload that does not decode leaves the
    /// document unchanged; any rejection is reported as a `DecodeError`.
    pub fn apply_update(&mut self, update: &[u8]) -> (r: Result<Vec<u8>, DocError>)
        requires
            old(self).wf(),
        ensures
            final(self).wf(),
            r is Ok <==> update_applies(old(self)@.applied, update@),
            old(self)@.applied.contains(update@) ==> r is Ok,
            r is Ok ==> final(self)@.applied == old(self)@.applied.insert(update@),
            r matches Ok(sv) ==> sv@ == final(self)@.sv,
            r is Err ==> r == Err::<Vec<u8>, DocError>(DocError::DecodeError),
            !wf_update(update@) && r is Err ==> final(self)@ == old(self)@,
    {
        if self.crdt_apply(update) {
            Ok(self.get_state_vector())
        } else {
            Err(DocError::DecodeError)
        }
    }

    /// The update a remote replica with state vector `client_state` is
    /// missing: empty exactly when the remote's vector equals this
    /// document's — it is up to date — and the CRDT-encoded difference
    /// otherwise.
    pub fn get_missing_updates(&self, client_state: &[u8]) -> (r: Result<Vec<u8>, DocError>)
        requires
            self.wf(),
        ensures
            r is Ok <==> valid_state_vector(client_state@),
            r matches Ok(d) ==> if same_state_vector(client_state@, self@.sv) {
                d@ == Seq::<u8>::empty()
            } else {
                is_diff_of(self@.applied, client_state@, d@) && d@.len() > 0
            },
            r is Err ==> r == Err::<Vec<u8>, DocError>(DocError::DecodeError),
    {
        match Self::crdt_same_state_vector(client_state, self.state_vector.as_slice()) {
            Some(true) => Ok(Vec::new()),
            Some(false) => {
                match self.crdt_encode_diff(client_state) {
                    Some(d) => Ok(d),
                    None => Err(DocError::DecodeError),
                }
            },
            None => Err(DocError::DecodeError),
        }
    }
}

/// Byte-for-byte equality of two slices.
pub fn bytes_eq(a: &[u8], b: &[u8]) -> (r: bool)
    ensures
        r == (a@ == b@),
{
    if a.len() != b.len() {
        assert(a@ != b@) by {
            assert(a@.len() != b@.len());
        }
        return false;
    }
    let n = a.len();
    let mut i: usize = 0;
    while i < n
        invariant
            n == a@.len() && n == b@.len(),
            0 <= i <= n,
            forall|j: int| 0 <= j < i ==> a@[j] == b@[j],
        decreases n - i,
    {
        if a[i] != b[i] {
            return false;
        }
        i += 1;
    }
    proof {
        assert(a@ =~= b@);
    }
    true
}

/// A fresh copy of a byte slice.
pub fn clone_bytes(v: &[u8]) -> (r: Vec<u8>)
    ensures
        r@ == v@,
{
    let n = v.len();
    let mut r: Vec<u8> = Vec::new();
    let mut i: usize = 0;
    while i < n
        invariant
            n == v@.len(),
            0 <= i <= n,
            r@ == v@.subrange(0, i as int),
        decreases n - i,
    {
        r.push(v[i]);
        proof {
            assert(r@ =~= v@.subrange(0, i + 1));
        }
        i += 1;
    }
    proof {
        assert(r@ =~= v@);
    }
    r
}

/// Convergence: merging the same two updates in either order leaves the
/// document with the same merged-update set.  Everything determined by
/// that set — in particular the logical state vector that either
/// container's encoding decodes to — is therefore the same in both
/// orders.  This reflects the commutativity guarantee of the CRDT
/// capability in the set model that `apply_update` maintains.
pub proof fn lemma_apply_order_irrelevant(s: Set<Seq<u8>>, u1: Seq<u8>, u2: Seq<u8>)
    ensures
        s.insert(u1).insert(u2) == s.insert(u2).insert(u1),
{
    assert(s.insert(u1).insert(u2) =~= s.insert(u2).insert(u1));
}

/// Idempotence: merging an update a second time changes nothing — the
/// merged-update set, and with it the document's logical state, is the
/// same after a duplicate delivery.  `apply_update` moreover promises
/// that the duplicate delivery itself succeeds.
pub proof fn lemma_apply_idempotent(s: Set<Seq<u8>>, u: Seq<u8>)
    ensures
        s.insert(u).insert(u) == s.insert(u),
        s.contains(u) ==> s.insert(u) == s,
{
    assert(s.insert(u).insert(u) =~= s.insert(u));
    if s.contains(u) {
        assert(s.insert(u) =~= s);
    }
}

} // verus!
