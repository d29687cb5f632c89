//! Messages exchanged with the rendezvous and relay servers, as plain values.
//!
//! The wire encoding is the caller's business; these types hold what the
//! connection logic reads and writes.

use vstd::prelude::*;

verus! {

/// Default port of a rendezvous server.
pub const RENDEZVOUS_PORT: i32 = 21116;

/// Default port of a relay server.
pub const RELAY_PORT: i32 = 21117;

/// Port dialled when the peer is given as a bare IP address.
pub const DIRECT_PORT: i32 = 21118;

/// Budget for one TCP connect or one rendezvous exchange, in milliseconds.
pub const CONNECT_TIMEOUT: u64 = 18_000;

/// Budget for the first message of the secure handshake, in milliseconds.
pub const READ_TIMEOUT: u64 = 30_000;

/// How a host sits behind its address translator.
#[derive(Clone, Copy, Debug, PartialEq, Eq, Structural)]
pub enum NatType {
    UnknownNat,
    Asymmetric,
    Symmetric,
}

/// What a connection is for.
#[derive(Clone, Copy, Debug, PartialEq, Eq, Structural)]
pub enum ConnType {
    DefaultConn,
    FileTransfer,
    PortForward,
    Rdp,
}

impl NatType {
    /// The number that stands for this type on the wire.
    pub open spec fn spec_code(self) -> int {
        match self {
            NatType::UnknownNat => 0,
            NatType::Asymmetric => 1,
            NatType::Symmetric => 2,
        }
    }

    /// The type that a wire number stands for; unknown numbers read as
    /// `UnknownNat`.
    pub open spec fn spec_from_code(code: int) -> NatType {
        if code == 1 {
            NatType::Asymmetric
        } else if code == 2 {
            NatType::Symmetric
        } else {
            NatType::UnknownNat
        }
    }

    /// The number that stands for this type on the wire.
    pub fn code(self) -> (r: i32)
        ensures
            r == self.spec_code(),
    {
        match self {
            NatType::UnknownNat => 0,
            NatType::Asymmetric => 1,
            NatType::Symmetric => 2,
        }
    }

    /// Reads a wire number; unknown numbers read as `UnknownNat`.
    pub fn from_code(code: i32) -> (r: NatType)
        ensures
            r == NatType::spec_from_code(code as int),
    {
        if code == 1 {
            NatType::Asymmetric
        } else if code == 2 {
            NatType::Symmetric
        } else {
            NatType::UnknownNat
        }
    }

    /// Reading back the number of a type gives that type.
    pub proof fn lemma_code_round_trip(t: NatType)
        ensures
            NatType::spec_from_code(t.spec_code()) == t,
    {
    }
}

/// Why the rendezvous server could not name the peer's address.
#[derive(Clone, Copy, Debug, PartialEq, Eq, Structural)]
pub enum PunchFailure {
    IdNotExist,
    Offline,
    LicenseMismatch,
    LicenseOveruse,
    /// A reason this client does not know.
    Unknown,
}

/// Asks the rendezvous server to introduce us to a peer.
#[derive(Clone, Debug)]
pub struct PunchHoleRequest {
    pub id: String,
    pub token: String,
    pub nat_type: NatType,
    pub licence_key: String,
    pub conn_type: ConnType,
}

/// The rendezvous server's answer to a punch-hole request.
#[derive(Clone, Debug)]
pub struct PunchHoleResponse {
    /// The peer's address, still mangled; empty when the server failed.
    pub socket_addr: Vec<u8>,
    /// The peer's id and public key, signed by the server; may be empty.
    pub pk: Vec<u8>,
    pub failure: PunchFailure,
    pub relay_server: String,
    pub nat_type: NatType,
    pub is_local: bool,
    pub other_failure: String,
}

/// Tells us to meet the peer on a relay server.
#[derive(Clone, Debug)]
pub struct RelayResponse {
    pub uuid: String,
    pub relay_server: String,
    /// The peer's id and public key, signed by the server; may be empty.
    pub pk: Vec<u8>,
    pub refuse_reason: String,
}

/// Asks for a relayed connection, of the rendezvous server or of the relay.
#[derive(Clone, Debug)]
pub struct RequestRelay {
    pub id: String,
    pub uuid: String,
    pub relay_server: String,
    pub secure: bool,
    pub licence_key: String,
    pub conn_type: ConnType,
    pub token: String,
}

/// What came back from the rendezvous server within the deadline.
#[derive(Clone, Debug)]
pub enum RendezvousReply {
    PunchHole(PunchHoleResponse),
    Relay(RelayResponse),
    /// A message of another kind.
    Other,
    /// Nothing arrived in time.
    Nothing,
}

} // verus!
