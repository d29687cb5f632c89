//! The connection orchestrator's decisions.
//!
//! Establishing a session alternates network exchanges with decisions. The
//! exchanges belong to the caller; every decision is a function here, from
//! what is known so far and what just came back to what to do next.

use vstd::prelude::*;
use vstd::string::StringExecFns;
use crate::rendezvous::{
    ConnType, NatType, PunchFailure, PunchHoleRequest, PunchHoleResponse, RendezvousReply,
    CONNECT_TIMEOUT, DIRECT_PORT,
};
use crate::text::{str_eq, str_starts_with};

verus! {

/// Shortest budget for dialling the peer, in milliseconds.
pub const MIN_CONNECT_TIMEOUT: u64 = 1000;

/// How many times a punch-hole or relay request is tried.
pub const MAX_ATTEMPTS: u32 = 3;

/// Each punch attempt waits this much longer than the one before, in
/// milliseconds.
pub const PUNCH_DEADLINE_STEP: u64 = 6000;

/// Budget for asking the shared selector for a rendezvous server, in
/// milliseconds.
pub const BEST_SERVER_BUDGET: u64 = 1000;

/// Budget for probing the local NAT type, in milliseconds.
pub const NAT_PROBE_BUDGET: u64 = 100;

/// Why a connection could not be established.
#[derive(Clone, Debug)]
pub enum ConnectError {
    IncomingOnly,
    IdNotExist,
    Offline,
    KeyMismatch,
    KeyOveruse,
    /// The rendezvous server failed for a reason this client does not know.
    PunchHoleOther,
    /// The rendezvous or relay server gave its reason in words.
    Server(String),
    /// No peer address was learned from the rendezvous server.
    Rendezvous,
    /// The peer could not be dialled and there is no relay to fall back on.
    Direct,
    /// The relay path failed, with the underlying error.
    Relay(String),
    /// The rendezvous server could not be dialled for a relay request.
    RendezvousDial,
    /// The relay server could not be dialled.
    RelayDial,
    /// No relay response arrived in any attempt.
    Timeout,
    /// The peer closed the stream during the handshake.
    ResetByPeer,
    /// The transport failed, with its own words.
    Transport(String),
}

impl ConnectError {
    /// The text of this error before it is surfaced.
    pub open spec fn spec_message(self) -> Seq<char> {
        match self {
            ConnectError::IncomingOnly => "Incoming only mode"@,
            ConnectError::IdNotExist => "ID does not exist"@,
            ConnectError::Offline => "Remote desktop is offline"@,
            ConnectError::KeyMismatch => "Key mismatch"@,
            ConnectError::KeyOveruse => "Key overuse"@,
            ConnectError::PunchHoleOther => "other punch hole failure"@,
            ConnectError::Server(reason) => reason@,
            ConnectError::Rendezvous => "Failed to connect via rendezvous server"@,
            ConnectError::Direct => "Failed to make direct connection to remote desktop"@,
            ConnectError::Relay(cause) => "Failed to connect via relay server: "@ + cause@,
            ConnectError::RendezvousDial => "Failed to connect to rendezvous server"@,
            ConnectError::RelayDial => "Failed to connect to relay server"@,
            ConnectError::Timeout => "Timeout"@,
            ConnectError::ResetByPeer => "Reset by the peer"@,
            ConnectError::Transport(cause) => cause@,
        }
    }

    /// The text of this error before it is surfaced.
    pub fn message(&self) -> (r: String)
        ensures
            r@ == self.spec_message(),
    {
        match self {
            ConnectError::IncomingOnly => "Incoming only mode".to_owned(),
            ConnectError::IdNotExist => "ID does not exist".to_owned(),
            ConnectError::Offline => "Remote desktop is offline".to_owned(),
            ConnectError::KeyMismatch => "Key mismatch".to_owned(),
            ConnectError::KeyOveruse => "Key overuse".to_owned(),
            ConnectError::PunchHoleOther => "other punch hole failure".to_owned(),
            ConnectError::Server(reason) => reason.clone(),
            ConnectError::Rendezvous => "Failed to connect via rendezvous server".to_owned(),
            ConnectError::Direct => "Failed to make direct connection to remote desktop".to_owned(),
            ConnectError::Relay(cause) => "Failed to connect via relay server: ".to_owned().concat(
                cause.as_str(),
            ),
            ConnectError::RendezvousDial => "Failed to connect to rendezvous server".to_owned(),
            ConnectError::RelayDial => "Failed to connect to relay server".to_owned(),
            ConnectError::Timeout => "Timeout".to_owned(),
            ConnectError::ResetByPeer => "Reset by the peer".to_owned(),
            ConnectError::Transport(cause) => cause.clone(),
        }
    }

    /// The text shown to the user: see [`surface_error`].
    pub fn surfaced(&self) -> (r: String)
        ensures
            r@ == spec_surface_error(self.spec_message()),
    {
        let m = self.message();
        surface_error(m.as_str())
    }
}

/// An error text as the user sees it: one that begins with `Failed` gets
/// the advice to try later appended.
pub open spec fn spec_surface_error(err: Seq<char>) -> Seq<char> {
    if "Failed"@.is_prefix_of(err) {
        err + ": Please try later"@
    } else {
        err
    }
}

/// An error text as the user sees it.
pub fn surface_error(err: &str) -> (r: String)
    ensures
        r@ == spec_surface_error(err@),
{
    if str_starts_with(err, "Failed") {
        err.to_owned().concat(": Please try later")
    } else {
        err.to_owned()
    }
}

/// How the peer string reads, as the caller's address parser found it.
#[derive(Clone, Copy, Debug, PartialEq, Eq, Structural)]
pub enum PeerForm {
    /// A literal IPv4 or IPv6 address, with or without a port.
    IpLiteral,
    /// A domain name followed by a port.
    DomainWithPort,
    /// Anything else: an id to be resolved by a rendezvous server.
    Id,
}

/// The first thing to do when a connection is asked for.
#[derive(Clone, Copy, Debug, PartialEq, Eq, Structural)]
pub enum FirstStep {
    /// This installation only accepts incoming sessions.
    Refuse,
    /// Dial the peer itself, on `port` where the peer string names none;
    /// the session is direct and the peer's key stays unknown.
    DialPeer { port: Option<i32> },
    /// Ask a rendezvous server.
    Rendezvous,
}

/// The first thing to do: refuse where only incoming sessions are allowed;
/// dial an address on the direct port, a domain on the port it names; ask
/// a rendezvous server for anything else.
pub open spec fn spec_first_step(incoming_only: bool, form: PeerForm) -> FirstStep {
    if incoming_only {
        FirstStep::Refuse
    } else {
        match form {
            PeerForm::IpLiteral => FirstStep::DialPeer { port: Some(DIRECT_PORT) },
            PeerForm::DomainWithPort => FirstStep::DialPeer { port: None },
            PeerForm::Id => FirstStep::Rendezvous,
        }
    }
}

/// Decides between refusing, dialling the peer itself and going through a
/// rendezvous server.
pub fn first_step(incoming_only: bool, form: PeerForm) -> (r: FirstStep)
    ensures
        r == spec_first_step(incoming_only, form),
{
    if incoming_only {
        FirstStep::Refuse
    } else {
        match form {
            PeerForm::IpLiteral => FirstStep::DialPeer { port: Some(DIRECT_PORT) },
            PeerForm::DomainWithPort => FirstStep::DialPeer { port: None },
            PeerForm::Id => FirstStep::Rendezvous,
        }
    }
}

/// Where the rendezvous server comes from.
#[derive(Clone, Debug)]
pub enum ServerChoice {
    /// The shared selector's best server, asked within `BEST_SERVER_BUDGET`.
    Best,
    /// The first of the default servers, the others kept as alternates.
    Public,
    /// The server that the peer id named.
    Custom(String),
}

/// Whom to ask for, with which credentials, at which server.
#[derive(Clone, Debug)]
pub struct Target {
    pub peer: String,
    pub key: String,
    pub token: String,
    pub server: ServerChoice,
}

/// The name that selects the default public servers in a peer id.
pub open spec fn public_server() -> Seq<char> {
    "public"@
}

/// Whether `server` selects the default public servers.
pub fn is_public_server(server: &str) -> (r: bool)
    ensures
        r == (server@ == public_server()),
{
    str_eq(server, "public")
}

/// Resolves the target of a rendezvous request. A server override stored
/// with the session replaces the peer and the key and drops the token; an
/// override without a server, like no override, leaves the choice to the
/// shared selector.
pub fn choose_target(
    peer: &str,
    key: &str,
    token: &str,
    other_server: &Option<(String, String, String)>,
) -> (r: Target)
    ensures
        match *other_server {
            Some((id, server, server_key)) => {
                &&& r.peer@ == id@
                &&& r.key@ == server_key@
                &&& r.token@ == Seq::<char>::empty()
                &&& if server@.len() == 0 {
                    r.server is Best
                } else if server@ == public_server() {
                    r.server is Public
                } else {
                    r.server is Custom && r.server->Custom_0@ == server@
                }
            },
            None => {
                &&& r.peer@ == peer@
                &&& r.key@ == key@
                &&& r.token@ == token@
                &&& r.server is Best
            },
        },
{
    match other_server {
        Some((id, server, server_key)) => {
            let choice = if server.as_str().is_empty() {
                ServerChoice::Best
            } else if is_public_server(server.as_str()) {
                ServerChoice::Public
            } else {
                ServerChoice::Custom(server.clone())
            };
            Target { peer: id.clone(), key: server_key.clone(), token: String::new(), server: choice }
        },
        None => Target {
            peer: peer.to_owned(),
            key: key.to_owned(),
            token: token.to_owned(),
            server: ServerChoice::Best,
        },
    }
}

/// What to do once the first rendezvous server was dialled.
#[derive(Clone, Copy, Debug, PartialEq, Eq, Structural)]
pub enum AfterFirstDial {
    /// Dial the alternates in order until one answers, then refresh the
    /// cached choice of server.
    TryAlternates,
    /// Go on with this dial's result and refresh the cached choice.
    RefreshAndProceed,
    /// Go on with this dial's result.
    Proceed,
}

/// How to go on after the first rendezvous server was dialled: a failed
/// dial turns to the alternates where there are any; otherwise the cached
/// choice is refreshed unless it was the server dialled.
pub open spec fn spec_after_first_dial(connected: bool, alternates: nat, cached: bool)
    -> AfterFirstDial {
    if !connected && alternates > 0 {
        AfterFirstDial::TryAlternates
    } else if !cached {
        AfterFirstDial::RefreshAndProceed
    } else {
        AfterFirstDial::Proceed
    }
}

/// Decides how to go on after the first rendezvous server was dialled:
/// `alternates` is how many other servers are known, `cached` whether the
/// server dialled was the cached choice.
pub fn after_first_dial(connected: bool, alternates: usize, cached: bool) -> (r: AfterFirstDial)
    ensures
        r == spec_after_first_dial(connected, alternates as nat, cached),
{
    if !connected && alternates > 0 {
        AfterFirstDial::TryAlternates
    } else if !cached {
        AfterFirstDial::RefreshAndProceed
    } else {
        AfterFirstDial::Proceed
    }
}

/// Whether the rendezvous socket is upgraded to a secure channel before the
/// token is sent: only when there is both a key and a token.
pub fn wants_secure_channel(key: &str, token: &str) -> (r: bool)
    ensures
        r == (key@.len() > 0 && token@.len() > 0),
{
    !key.is_empty() && !token.is_empty()
}

/// The NAT type to advertise: symmetric when a relay is forced, else the
/// probed one.
pub open spec fn spec_advertised_nat(force_relay: bool, my_nat_type: int) -> NatType {
    if force_relay {
        NatType::Symmetric
    } else {
        NatType::spec_from_code(my_nat_type)
    }
}

/// Builds the punch-hole request for one attempt.
pub fn punch_hole_request(
    peer: &str,
    token: &str,
    key: &str,
    conn_type: ConnType,
    force_relay: bool,
    my_nat_type: i32,
) -> (r: PunchHoleRequest)
    ensures
        r.id@ == peer@,
        r.token@ == token@,
        r.licence_key@ == key@,
        r.conn_type == conn_type,
        r.nat_type == spec_advertised_nat(force_relay, my_nat_type as int),
{
    let nat_type = if force_relay {
        NatType::Symmetric
    } else {
        NatType::from_code(my_nat_type)
    };
    PunchHoleRequest {
        id: peer.to_owned(),
        token: token.to_owned(),
        nat_type,
        licence_key: key.to_owned(),
        conn_type,
    }
}

/// How long attempt `attempt` waits for the server's answer, in
/// milliseconds.
pub fn punch_deadline(attempt: u32) -> (r: u64)
    ensures
        r == attempt * PUNCH_DEADLINE_STEP,
{
    let a: u64 = attempt as u64;
    a * PUNCH_DEADLINE_STEP
}

/// What a punch-hole exchange taught us about the peer.
#[derive(Clone, Debug)]
pub struct PunchedPeer {
    /// The peer's address, still mangled.
    pub socket_addr: Vec<u8>,
    pub nat_type: NatType,
    pub is_local: bool,
    pub signed_id_pk: Vec<u8>,
    pub relay_server: String,
}

/// What to do after one punch attempt.
#[derive(Clone, Debug)]
pub enum PunchStep {
    /// Give up with this error.
    Fail(ConnectError),
    /// The peer's address is known: stop asking, decode it and dial.
    Punched(PunchedPeer),
    /// The peer asked for a relay: join it there; the session is relayed.
    Relay { uuid: String, relay_server: String, signed_id_pk: Vec<u8> },
    /// Try again, as attempt `attempt`.
    Retry { attempt: u32 },
}

/// The error for a punch-hole response without an address.
pub open spec fn spec_punch_failure(response: PunchHoleResponse) -> ConnectError {
    if response.other_failure@.len() > 0 {
        ConnectError::Server(response.other_failure)
    } else {
        match response.failure {
            PunchFailure::IdNotExist => ConnectError::IdNotExist,
            PunchFailure::Offline => ConnectError::Offline,
            PunchFailure::LicenseMismatch => ConnectError::KeyMismatch,
            PunchFailure::LicenseOveruse => ConnectError::KeyOveruse,
            PunchFailure::Unknown => ConnectError::PunchHoleOther,
        }
    }
}

/// What follows one punch attempt, given what came back.
pub open spec fn spec_punch_step(attempt: u32, reply: RendezvousReply) -> PunchStep {
    match reply {
        RendezvousReply::PunchHole(response) => {
            if response.socket_addr@.len() == 0 {
                PunchStep::Fail(spec_punch_failure(response))
            } else {
                PunchStep::Punched(
                    PunchedPeer {
                        socket_addr: response.socket_addr,
                        nat_type: response.nat_type,
                        is_local: response.is_local,
                        signed_id_pk: response.pk,
                        relay_server: response.relay_server,
                    },
                )
            }
        },
        RendezvousReply::Relay(response) => PunchStep::Relay {
            uuid: response.uuid,
            relay_server: response.relay_server,
            signed_id_pk: response.pk,
        },
        _ => if attempt < MAX_ATTEMPTS {
            PunchStep::Retry { attempt: (attempt + 1) as u32 }
        } else {
            PunchStep::Fail(ConnectError::Rendezvous)
        },
    }
}

/// Decides what follows attempt number `attempt` (counted from 1), given
/// what came back. A response without an address is fatal; one with an
/// address, or a relay response, ends the asking; anything else, or
/// nothing, leads to the next attempt while one is left, and to failure
/// after the last.
pub fn punch_step(attempt: u32, reply: RendezvousReply) -> (r: PunchStep)
    ensures
        r == spec_punch_step(attempt, reply),
        r matches PunchStep::Retry { attempt: next } ==> attempt < MAX_ATTEMPTS && next == attempt
            + 1,
{
    match reply {
        RendezvousReply::PunchHole(response) => {
            if response.socket_addr.len() == 0 {
                let err = if !response.other_failure.as_str().is_empty() {
                    ConnectError::Server(response.other_failure)
                } else {
                    match response.failure {
                        PunchFailure::IdNotExist => ConnectError::IdNotExist,
                        PunchFailure::Offline => ConnectError::Offline,
                        PunchFailure::LicenseMismatch => ConnectError::KeyMismatch,
                        PunchFailure::LicenseOveruse => ConnectError::KeyOveruse,
                        PunchFailure::Unknown => ConnectError::PunchHoleOther,
                    }
                };
                PunchStep::Fail(err)
            } else {
                PunchStep::Punched(
                    PunchedPeer {
                        socket_addr: response.socket_addr,
                        nat_type: response.nat_type,
                        is_local: response.is_local,
                        signed_id_pk: response.pk,
                        relay_server: response.relay_server,
                    },
                )
            }
        },
        RendezvousReply::Relay(response) => PunchStep::Relay {
            uuid: response.uuid,
            relay_server: response.relay_server,
            signed_id_pk: response.pk,
        },
        _ => if attempt < MAX_ATTEMPTS {
            PunchStep::Retry { attempt: attempt + 1 }
        } else {
            PunchStep::Fail(ConnectError::Rendezvous)
        },
    }
}

/// Refuses a peer address that decoded to port 0: no usable address was
/// learned from the rendezvous server.
pub fn check_peer_port(port: u16) -> (r: Result<(), ConnectError>)
    ensures
        port == 0 ==> r == Err::<(), ConnectError>(ConnectError::Rendezvous),
        port != 0 ==> r is Ok,
{
    if port == 0 {
        Err(ConnectError::Rendezvous)
    } else {
        Ok(())
    }
}

/// Whether the local NAT type is probed once more before the dialling
/// budget is computed: only where the budget depends on it and the first
/// probe did not tell.
pub open spec fn spec_needs_nat_probe(
    is_local: bool,
    peer_nat_type: NatType,
    has_relay: bool,
    my_nat_type: int,
) -> bool {
    !is_local && peer_nat_type == NatType::Asymmetric && has_relay && my_nat_type
        == NatType::UnknownNat.spec_code()
}

/// Whether the local NAT type is probed once more, within
/// `NAT_PROBE_BUDGET`.
pub fn needs_nat_probe(is_local: bool, peer_nat_type: NatType, has_relay: bool, my_nat_type: i32)
    -> (r: bool)
    ensures
        r == spec_needs_nat_probe(is_local, peer_nat_type, has_relay, my_nat_type as int),
{
    !is_local && peer_nat_type == NatType::Asymmetric && has_relay && my_nat_type == 0
}

/// The budget for dialling the peer, in milliseconds, from the topology:
/// the shortest one on a LAN or towards a symmetric NAT; the full one
/// without a relay to fall back on; between two asymmetric NATs the full
/// one, or six punch times after earlier direct failures; the shortest one
/// from behind a symmetric NAT towards an asymmetric one; otherwise three
/// punch times after earlier failures and six without; never under the
/// shortest.
pub open spec fn spec_connect_timeout(
    is_local: bool,
    peer_nat_type: NatType,
    has_relay: bool,
    my_nat_type: int,
    direct_failures: int,
    punch_time: int,
) -> int {
    if is_local || peer_nat_type == NatType::Symmetric {
        MIN_CONNECT_TIMEOUT as int
    } else {
        let wanted = if !has_relay {
            CONNECT_TIMEOUT as int
        } else if peer_nat_type == NatType::Asymmetric && my_nat_type
            == NatType::Asymmetric.spec_code() {
            if direct_failures > 0 {
                punch_time * 6
            } else {
                CONNECT_TIMEOUT as int
            }
        } else if peer_nat_type == NatType::Asymmetric && my_nat_type
            == NatType::Symmetric.spec_code() {
            MIN_CONNECT_TIMEOUT as int
        } else if direct_failures > 0 {
            punch_time * 3
        } else {
            punch_time * 6
        };
        if wanted < MIN_CONNECT_TIMEOUT {
            MIN_CONNECT_TIMEOUT as int
        } else {
            wanted
        }
    }
}

/// The budget for dialling the peer, in milliseconds. `my_nat_type` is the
/// local type after the probe that [`needs_nat_probe`] may have asked for;
/// `punch_time` is how long the punch-hole exchange took.
pub fn connect_timeout(
    is_local: bool,
    peer_nat_type: NatType,
    has_relay: bool,
    my_nat_type: i32,
    direct_failures: i32,
    punch_time: u64,
) -> (r: u64)
    requires
        punch_time * 6 <= u64::MAX,
    ensures
        r == spec_connect_timeout(
            is_local,
            peer_nat_type,
            has_relay,
            my_nat_type as int,
            direct_failures as int,
            punch_time as int,
        ),
        r >= MIN_CONNECT_TIMEOUT,
{
    if is_local || peer_nat_type == NatType::Symmetric {
        return MIN_CONNECT_TIMEOUT;
    }
    let mut wanted: u64 = 0;
    if !has_relay {
        wanted = CONNECT_TIMEOUT;
    } else {
        if peer_nat_type == NatType::Asymmetric {
            if my_nat_type == 1 {
                wanted = CONNECT_TIMEOUT;
                if direct_failures > 0 {
                    wanted = punch_time * 6;
                }
            } else if my_nat_type == 2 {
                wanted = MIN_CONNECT_TIMEOUT;
            }
        }
        if wanted == 0 {
            let n: u64 = if direct_failures > 0 {
                3
            } else {
                6
            };
            wanted = punch_time * n;
        }
    }
    if wanted < MIN_CONNECT_TIMEOUT {
        wanted = MIN_CONNECT_TIMEOUT;
    }
    wanted
}

/// What to do once the peer was dialled.
#[derive(Clone, Copy, Debug, PartialEq, Eq, Structural)]
pub enum AfterDial {
    /// Keep the direct connection.
    KeepDirect,
    /// Ask for a relay; the session is then not direct.
    RequestRelay,
    /// Give up: there is no relay to fall back on.
    Fail,
}

/// What follows the dial of the peer.
pub open spec fn spec_after_dial(connected: bool, force_relay: bool, has_relay: bool) -> AfterDial {
    if force_relay || !connected {
        if has_relay {
            AfterDial::RequestRelay
        } else {
            AfterDial::Fail
        }
    } else {
        AfterDial::KeepDirect
    }
}

/// Decides what follows the dial of the peer: a relay is asked for when the
/// dial failed or a relay is forced, and that needs a relay server.
pub fn after_dial(connected: bool, force_relay: bool, has_relay: bool) -> (r: AfterDial)
    ensures
        r == spec_after_dial(connected, force_relay, has_relay),
{
    if force_relay || !connected {
        if has_relay {
            AfterDial::RequestRelay
        } else {
            AfterDial::Fail
        }
    } else {
        AfterDial::KeepDirect
    }
}

/// The error for a relay path that failed with `cause`.
pub fn relay_failed(cause: &str) -> (r: ConnectError)
    ensures
        r is Relay,
        r->Relay_0@ == cause@,
{
    ConnectError::Relay(cause.to_owned())
}

/// The stored count of direct failures after a session was established:
/// it is written only where a relay was on offer and the outcome differs
/// from what the count says, and then it becomes 0 for a direct session
/// and 1 for a relayed one.
pub open spec fn spec_direct_failures_update(has_relay: bool, prior: int, direct: bool) -> Option<
    i32,
> {
    if has_relay && ((prior == 0) != direct) {
        Some(
            if direct {
                0i32
            } else {
                1i32
            },
        )
    } else {
        None
    }
}

/// The new count of direct failures to store, if it is to be written at
/// all.
pub fn direct_failures_update(has_relay: bool, prior: i32, direct: bool) -> (r: Option<i32>)
    ensures
        r == spec_direct_failures_update(has_relay, prior as int, direct),
        r is Some <==> has_relay && ((prior == 0) != direct),
        r matches Some(n) ==> n != prior,
{
    if has_relay && ((prior == 0) != direct) {
        Some(
            if direct {
                0
            } else {
                1
            },
        )
    } else {
        None
    }
}

} // verus!
