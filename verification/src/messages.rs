//! The typed messages the handshake layer consumes and produces. The byte
//! codec lives with the transport layer; this layer sees decoded values only.
use vstd::prelude::*;
use crate::addr::SystemAddress;

verus! {

/// Which logical service a client addresses. Only `Client` is accepted at
/// this layer; every other tag is rejected.
#[derive(Clone, Copy, Debug, PartialEq, Eq, Structural)]
pub enum ServiceId {
    General,
    Auth,
    Chat,
    World,
    Client,
}

/// Inbound liveness probe carrying an opaque send timestamp.
#[derive(Clone, Copy, Debug, PartialEq, Eq, Structural)]
pub struct InternalPing {
    pub send_time: u64,
}

/// Outbound reply to a ping, echoing the probe's timestamp unchanged.
#[derive(Clone, Copy, Debug, PartialEq, Eq, Structural)]
pub struct ConnectedPong {
    pub ping_send_time: u64,
}

/// Inbound request to open a connection, carrying a password byte-string.
#[derive(Clone, Debug)]
pub struct ConnectionRequest {
    pub password: Vec<u8>,
}

/// Outbound acceptance of a connection request, carrying the peer and local
/// endpoints as the server observed them, in wire (IPv4) form.
#[derive(Clone, Copy, Debug, PartialEq, Eq, Structural)]
pub struct ConnectionRequestAccepted {
    pub peer_addr: SystemAddress,
    pub local_addr: SystemAddress,
}

/// Inbound application handshake: the client's protocol version and the
/// service it means to address.
#[derive(Clone, Copy, Debug, PartialEq, Eq, Structural)]
pub struct IncomingHandshake {
    pub network_version: u32,
    pub service_id: ServiceId,
}

/// Outbound application handshake: the server's own protocol version and the
/// service tag it confirms.
#[derive(Clone, Copy, Debug, PartialEq, Eq, Structural)]
pub struct OutgoingHandshake {
    pub network_version: u32,
    pub service_id: ServiceId,
}

/// Every message this layer can emit, ready for the codec.
#[derive(Clone, Copy, Debug, PartialEq, Eq, Structural)]
pub enum OutboundMessage {
    Pong(ConnectedPong),
    Accepted(ConnectionRequestAccepted),
    Handshake(OutgoingHandshake),
}

} // verus!
