//! The secure handshake's decisions.
//!
//! Signature checks and key generation are the caller's; what is decided
//! from their outcome is decided here.

use vstd::prelude::*;
use crate::text::str_eq;

verus! {

/// An id with a public key, as recovered from a signed blob.
#[derive(Clone, Debug)]
pub struct IdPk {
    pub id: String,
    pub pk: Vec<u8>,
}

/// The peer's signing key as vouched for by the rendezvous server.
pub open spec fn spec_vouched_key(signed_id_pk: Seq<u8>, opened: Option<IdPk>, peer_id: Seq<char>)
    -> Option<Vec<u8>> {
    match opened {
        Some(id_pk) => if signed_id_pk.len() > 0 && id_pk.id@ == peer_id {
            Some(id_pk.pk)
        } else {
            None
        },
        None => None,
    }
}

/// The peer's signing key, if the rendezvous server vouched for it.
/// `opened` is what the signed blob `signed_id_pk` held when opened with
/// the rendezvous server's key: `None` when there is no such key or the
/// signature does not verify. The key counts only when the blob is not
/// empty and names the expected peer.
pub fn vouched_key(signed_id_pk: &Vec<u8>, opened: Option<IdPk>, peer_id: &str) -> (r: Option<
    Vec<u8>,
>)
    ensures
        r == spec_vouched_key(signed_id_pk@, opened, peer_id@),
{
    match opened {
        Some(id_pk) => if signed_id_pk.len() > 0 && str_eq(id_pk.id.as_str(), peer_id) {
            Some(id_pk.pk)
        } else {
            None
        },
        None => None,
    }
}

/// The peer's first message, as far as the handshake looks at it.
#[derive(Clone, Debug)]
pub enum FirstMessage {
    /// The stream ended before a message came.
    Closed,
    /// Bytes that are no message.
    Malformed,
    /// A message of another kind than a signed id.
    Unexpected,
    /// A signed id; `opened` is what it held when opened with the peer's
    /// vouched key, `None` when the signature does not verify.
    SignedId { opened: Option<IdPk> },
}

/// How to answer the peer's first message.
#[derive(Clone, Debug)]
pub enum Answer {
    /// The peer is gone: fail with "Reset by the peer".
    Reset,
    /// Send an empty message; the session stays in cleartext.
    SendEmpty,
    /// Verification failed: send an empty public-key message; the peer
    /// falls back to cleartext.
    SendEmptyKey,
    /// Generate a session key, send it wrapped under `their_pk` within the
    /// connect budget, and install it on the stream.
    SendSessionKey { their_pk: Vec<u8> },
}

/// How the peer's first message is answered: a closed stream is a reset;
/// a signed id that verifies and names the peer earns a session key; a
/// signed id that fails either check gets an empty key; anything that is no
/// signed id gets an empty message.
pub open spec fn spec_answer(first: FirstMessage, peer_id: Seq<char>) -> Answer {
    match first {
        FirstMessage::Closed => Answer::Reset,
        FirstMessage::Malformed => Answer::SendEmpty,
        FirstMessage::Unexpected => Answer::SendEmpty,
        FirstMessage::SignedId { opened: None } => Answer::SendEmptyKey,
        FirstMessage::SignedId { opened: Some(id_pk) } => if id_pk.id@ == peer_id {
            Answer::SendSessionKey { their_pk: id_pk.pk }
        } else {
            Answer::SendEmptyKey
        },
    }
}

/// Decides how to answer the peer's first message, awaited within
/// `READ_TIMEOUT`. Only a signed id that verifies and names the expected
/// peer earns a session key.
pub fn answer(first: FirstMessage, peer_id: &str) -> (r: Answer)
    ensures
        r == spec_answer(first, peer_id@),
        r is SendSessionKey <==> (first matches FirstMessage::SignedId { opened: Some(id_pk) }
            && id_pk.id@ == peer_id@),
{
    match first {
        FirstMessage::Closed => Answer::Reset,
        FirstMessage::Malformed => Answer::SendEmpty,
        FirstMessage::Unexpected => Answer::SendEmpty,
        FirstMessage::SignedId { opened: None } => Answer::SendEmptyKey,
        FirstMessage::SignedId { opened: Some(id_pk) } => if str_eq(id_pk.id.as_str(), peer_id) {
            Answer::SendSessionKey { their_pk: id_pk.pk }
        } else {
            Answer::SendEmptyKey
        },
    }
}

/// What the handshake does and what it hands back.
#[derive(Clone, Debug)]
pub enum Plan {
    /// No vouched key: send an empty message so that the peer does not
    /// stall, and report no key.
    Unsigned,
    /// Await the peer's first message, answer it as [`answer`] says, and
    /// report `peer_pk`.
    Signed { peer_pk: Vec<u8> },
}

/// Plans the handshake from the vouched key.
pub fn plan(vouched: Option<Vec<u8>>) -> (r: Plan)
    ensures
        r == match vouched {
            Some(pk) => Plan::Signed { peer_pk: pk },
            None => Plan::Unsigned,
        },
{
    match vouched {
        Some(pk) => Plan::Signed { peer_pk: pk },
        None => Plan::Unsigned,
    }
}

} // verus!
