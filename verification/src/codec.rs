//! Transport encoding of binary payloads.
//!
//! Update payloads and state vectors travel over the text transport as
//! standard base64 strings.  The encoding is named as an uninterpreted
//! function of the bytes alone; the trusted wrappers state that decoding
//! accepts exactly the canonical encodings and reverses the encoder.

use vstd::prelude::*;

use base64::engine::general_purpose::STANDARD;
use base64::Engine;

verus! {

/// The canonical standard base64 encoding (with padding) of `bytes`.
pub uninterp spec fn base64_encoding(bytes: Seq<u8>) -> Seq<char>;

/// Whether `text` is the canonical base64 encoding of some byte string.
pub open spec fn is_base64(text: Seq<char>) -> bool {
    exists|b: Seq<u8>| base64_encoding(b) == text
}

/// The byte string whose canonical base64 encoding is `text`.
pub open spec fn base64_decoding(text: Seq<char>) -> Seq<u8> {
    choose|b: Seq<u8>| base64_encoding(b) == text
}

/// Relies on `base64`: `Engine::encode` with the standard padded alphabet
/// produces the canonical encoding of the input bytes and nothing else.
#[verifier::external_body]
pub(crate) fn base64_encode(bytes: &[u8]) -> (r: String)
    ensures
        r@ == base64_encoding(bytes@),
{
    STANDARD.encode(bytes)
}

/// Relies on `base64`: `Engine::decode` with the standard engine accepts
/// exactly the canonical padded encodings (no trailing bits, canonical
/// padding) and returns the unique byte string the input encodes.
#[verifier::external_body]
pub(crate) fn base64_decode(text: &String) -> (r: Option<Vec<u8>>)
    ensures
        r matches Some(v) ==> text@ == base64_encoding(v@) && (forall|b2: Seq<u8>|
            base64_encoding(b2) == text@ ==> b2 == v@),
        r is None ==> forall|b: Seq<u8>| base64_encoding(b) != text@,
{
    match STANDARD.decode(text.as_bytes()) {
        Ok(v) => Some(v),
        Err(_) => None,
    }
}

/// A byte string whose canonical encoding is `text` is the one
/// `base64_decoding` denotes: the encoding is injective.
pub proof fn lemma_base64_decoding_unique(text: Seq<char>, v: Seq<u8>)
    requires
        base64_encoding(v) == text,
        forall|b2: Seq<u8>| base64_encoding(b2) == text ==> b2 == v,
    ensures
        is_base64(text),
        base64_decoding(text) == v,
{
    assert(is_base64(text));
    assert(base64_encoding(base64_decoding(text)) == text);
}

} // verus!
