//! Asking for a relayed connection and joining it.

use vstd::prelude::*;
use crate::connect::{ConnectError, MAX_ATTEMPTS};
use crate::rendezvous::{ConnType, RendezvousReply, RequestRelay};

verus! {

/// A fresh random identifier for a relayed connection, in its hyphenated
/// text form.
///
/// Trusted: calls `uuid::Uuid::new_v4` and formats the result. The value is
/// random, so nothing is promised of it.
#[verifier::external_body]
fn fresh_uuid() -> (r: String) {
    uuid::Uuid::new_v4().to_string()
}

/// Builds the relay request that goes to the rendezvous server, around the
/// connection identifier `uuid`.
pub fn relay_request_with(peer: &str, token: &str, uuid: String, relay_server: &str, secure: bool)
    -> (r: RequestRelay)
    ensures
        r.id@ == peer@,
        r.token@ == token@,
        r.uuid == uuid,
        r.relay_server@ == relay_server@,
        r.secure == secure,
        r.licence_key@.len() == 0,
        r.conn_type == ConnType::DefaultConn,
{
    RequestRelay {
        id: peer.to_owned(),
        uuid,
        relay_server: relay_server.to_owned(),
        secure,
        licence_key: String::new(),
        conn_type: ConnType::DefaultConn,
        token: token.to_owned(),
    }
}

/// Builds the relay request for one attempt, around a fresh random
/// connection identifier; each attempt gets its own. `secure` says whether
/// the rendezvous server vouched for the peer's key.
pub fn relay_request(peer: &str, token: &str, relay_server: &str, secure: bool) -> (r:
    RequestRelay)
    ensures
        r.id@ == peer@,
        r.token@ == token@,
        r.relay_server@ == relay_server@,
        r.secure == secure,
        r.licence_key@.len() == 0,
        r.conn_type == ConnType::DefaultConn,
{
    relay_request_with(peer, token, fresh_uuid(), relay_server, secure)
}

/// Builds the request that is sent to the relay server itself once it is
/// dialled, on `RELAY_PORT` where its name gives no port.
pub fn relay_join_request(peer: &str, key: &str, uuid: String, conn_type: ConnType) -> (r:
    RequestRelay)
    ensures
        r.id@ == peer@,
        r.licence_key@ == key@,
        r.uuid == uuid,
        r.conn_type == conn_type,
        r.relay_server@.len() == 0,
        r.token@.len() == 0,
        !r.secure,
{
    RequestRelay {
        id: peer.to_owned(),
        uuid,
        relay_server: String::new(),
        secure: false,
        licence_key: key.to_owned(),
        conn_type,
        token: String::new(),
    }
}

/// What to do after one relay request.
#[derive(Clone, Debug)]
pub enum RelayStep {
    /// Give up with this error.
    Fail(ConnectError),
    /// The relay is granted: dial the relay server and join.
    Join,
    /// Ask again on a fresh socket, as attempt `attempt`.
    Retry { attempt: u32 },
}

/// What follows one relay request, given what came back.
pub open spec fn spec_relay_step(attempt: u32, reply: RendezvousReply) -> RelayStep {
    match reply {
        RendezvousReply::Relay(response) => if response.refuse_reason@.len() > 0 {
            RelayStep::Fail(ConnectError::Server(response.refuse_reason))
        } else {
            RelayStep::Join
        },
        _ => if attempt < MAX_ATTEMPTS {
            RelayStep::Retry { attempt: (attempt + 1) as u32 }
        } else {
            RelayStep::Fail(ConnectError::Timeout)
        },
    }
}

/// Decides what follows relay request number `attempt` (counted from 1),
/// given what came back within `CONNECT_TIMEOUT`. A refusal is fatal; a
/// relay response without one grants the relay; anything else, or nothing,
/// leads to the next attempt while one is left, and to a timeout after the
/// last.
pub fn relay_step(attempt: u32, reply: RendezvousReply) -> (r: RelayStep)
    ensures
        r == spec_relay_step(attempt, reply),
        r matches RelayStep::Retry { attempt: next } ==> attempt < MAX_ATTEMPTS && next == attempt
            + 1,
{
    match reply {
        RendezvousReply::Relay(response) => if !response.refuse_reason.as_str().is_empty() {
            RelayStep::Fail(ConnectError::Server(response.refuse_reason))
        } else {
            RelayStep::Join
        },
        _ => if attempt < MAX_ATTEMPTS {
            RelayStep::Retry { attempt: attempt + 1 }
        } else {
            RelayStep::Fail(ConnectError::Timeout)
        },
    }
}

} // verus!
