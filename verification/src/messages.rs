//! Frame shapes of the text transport.
//!
//! Clients send JSON frames `{doc_id, type, data?, update?}` and receive
//! frames `{type, data?, update?}`; binary payloads travel base64-encoded
//! in the `update` field.  Parsing the JSON itself happens outside the
//! library; the protocol logic works on these parsed shapes.

use vstd::prelude::*;

verus! {

/// Message sent from a client to the server over the text transport.
pub struct ClientMessage {
    /// Identifier of the document this message relates to.
    pub doc_id: String,
    /// Kind of operation: "sync", "update" or "sv".
    pub message_type: String,
    /// Raw JSON payload for additional information, passed through.
    pub data: Option<String>,
    /// Base64-encoded binary update or state vector.
    pub update: Option<String>,
}

/// Message sent from the server to a client over the text transport.
pub struct ServerMessage {
    /// Kind of response: "sv" or "update".
    pub message_type: String,
    /// Raw JSON payload for additional information, passed through.
    pub data: Option<String>,
    /// Base64-encoded binary update or state vector.
    pub update: Option<String>,
}

} // verus!
