//! The three handshake handlers: liveness probe, connection request, and
//! application handshake. Each is a pure decision over one inbound message
//! and the connection it arrived on; the transport layer owns the sockets.
use vstd::prelude::*;
use crate::addr::{SocketAddress, ipv4_mappable, normalize_spec, normalize_address};
use crate::messages::{
    ConnectedPong, ConnectionRequest, ConnectionRequestAccepted, IncomingHandshake,
    InternalPing, OutboundMessage, OutgoingHandshake, ServiceId,
};

verus! {

/// The protocol version this server expects from every client, echoed back
/// on a successful handshake.
pub const NETWORK_VERSION: u32 = 171022;

/// The password a connection request must carry, byte for byte: `"3.25 ND1"`.
pub open spec fn expected_password() -> Seq<u8> {
    seq![51u8, 46u8, 50u8, 53u8, 32u8, 78u8, 68u8, 49u8]
}

/// Compares a supplied password against the expected literal, byte for byte,
/// with no normalization.
pub fn password_matches(password: &Vec<u8>) -> (r: bool)
    ensures
        r == (password@ == expected_password()),
{
    if password.len() != 8 {
        proof {
            assert(password@ != expected_password());
        }
        return false;
    }
    let r = password[0] == 51 && password[1] == 46 && password[2] == 50 && password[3] == 53
        && password[4] == 32 && password[5] == 78 && password[6] == 68 && password[7] == 49;
    proof {
        if r {
            assert(password@ =~= expected_password());
        }
    }
    r
}

/// The per-connection handle the handlers act through. The transport layer
/// implements it for its live sessions; this base capability only reads the
/// two endpoints, observes what has been enqueued, and can terminate the
/// connection. What a connection can emit is a capability of its own, one
/// trait per message type, so each handler asks only for what it uses.
pub trait Connection {
    /// The peer endpoint of this connection, as the transport reports it.
    spec fn peer(&self) -> SocketAddress;

    /// The local endpoint of this connection, as the transport reports it.
    spec fn local(&self) -> SocketAddress;

    /// The messages enqueued for sending so far, oldest first.
    spec fn outbox(&self) -> Seq<OutboundMessage>;

    /// Whether the connection has been terminated.
    spec fn is_closed(&self) -> bool;

    /// Reads the peer endpoint.
    fn peer_addr(&self) -> (a: SocketAddress)
        ensures
            a == self.peer(),
    ;

    /// Reads the local endpoint.
    fn local_addr(&self) -> (a: SocketAddress)
        ensures
            a == self.local(),
    ;

    /// Terminates the connection, changing nothing else.
    fn close_conn(&mut self)
        ensures
            final(self).is_closed(),
            final(self).outbox() == old(self).outbox(),
            final(self).peer() == old(self).peer(),
            final(self).local() == old(self).local(),
    ;
}

/// Capability: this connection can emit a pong.
pub trait EmitPong: Connection {
    /// Enqueues one pong for sending, changing nothing else.
    fn send_pong(&mut self, message: ConnectedPong)
        ensures
            final(self).outbox() == old(self).outbox().push(OutboundMessage::Pong(message)),
            final(self).is_closed() == old(self).is_closed(),
            final(self).peer() == old(self).peer(),
            final(self).local() == old(self).local(),
    ;
}

/// Capability: this connection can emit a connection-request acceptance.
pub trait EmitAccepted: Connection {
    /// Enqueues one acceptance for sending, changing nothing else.
    fn send_accepted(&mut self, message: ConnectionRequestAccepted)
        ensures
            final(self).outbox() == old(self).outbox().push(OutboundMessage::Accepted(message)),
            final(self).is_closed() == old(self).is_closed(),
            final(self).peer() == old(self).peer(),
            final(self).local() == old(self).local(),
    ;
}

/// Capability: this connection can emit an outbound handshake.
pub trait EmitHandshake: Connection {
    /// Enqueues one handshake for sending, changing nothing else.
    fn send_handshake(&mut self, message: OutgoingHandshake)
        ensures
            final(self).outbox() == old(self).outbox().push(OutboundMessage::Handshake(message)),
            final(self).is_closed() == old(self).is_closed(),
            final(self).peer() == old(self).peer(),
            final(self).local() == old(self).local(),
    ;
}

/// An in-memory connection: it records what a handler did instead of touching
/// a socket. The transport layer drains `sent` and performs the real sends.
#[derive(Clone, Debug)]
pub struct Context {
    pub peer_address: SocketAddress,
    pub local_address: SocketAddress,
    pub sent: Vec<OutboundMessage>,
    pub closed: bool,
}

impl Connection for Context {
    open spec fn peer(&self) -> SocketAddress {
        self.peer_address
    }

    open spec fn local(&self) -> SocketAddress {
        self.local_address
    }

    open spec fn outbox(&self) -> Seq<OutboundMessage> {
        self.sent@
    }

    open spec fn is_closed(&self) -> bool {
        self.closed
    }

    fn peer_addr(&self) -> (a: SocketAddress) {
        self.peer_address
    }

    fn local_addr(&self) -> (a: SocketAddress) {
        self.local_address
    }

    fn close_conn(&mut self) {
        self.closed = true;
    }
}

impl EmitPong for Context {
    fn send_pong(&mut self, message: ConnectedPong) {
        self.sent.push(OutboundMessage::Pong(message));
    }
}

impl EmitAccepted for Context {
    fn send_accepted(&mut self, message: ConnectionRequestAccepted) {
        self.sent.push(OutboundMessage::Accepted(message));
    }
}

impl EmitHandshake for Context {
    fn send_handshake(&mut self, message: OutgoingHandshake) {
        self.sent.push(OutboundMessage::Handshake(message));
    }
}

impl Context {
    /// A fresh connection between the two endpoints: nothing sent, not closed.
    pub fn new(peer_address: SocketAddress, local_address: SocketAddress) -> (c: Context)
        ensures
            c.peer() == peer_address,
            c.local() == local_address,
            c.outbox() == Seq::<OutboundMessage>::empty(),
            !c.is_closed(),
    {
        Context { peer_address, local_address, sent: Vec::new(), closed: false }
    }
}

/// Replies to a liveness probe with a pong carrying the identical timestamp.
/// Law: for every timestamp, the reply is an exact echo, and nothing else
/// changes.
pub fn on_internal_ping<C: EmitPong>(ping: &InternalPing, ctx: &mut C)
    ensures
        final(ctx).outbox() == old(ctx).outbox().push(
            OutboundMessage::Pong((ConnectedPong { ping_send_time: ping.send_time })),
        ),
        final(ctx).is_closed() == old(ctx).is_closed(),
        final(ctx).peer() == old(ctx).peer(),
        final(ctx).local() == old(ctx).local(),
{
    ctx.send_pong(ConnectedPong { ping_send_time: ping.send_time });
}

/// Gates a connection request on the expected password. A mismatch terminates
/// the connection with no reply; a match answers with the peer and local
/// endpoints normalized to wire form, ports kept unchanged.
///
/// Reaching this handler with an endpoint that has no IPv4 form while the
/// password matches is a deployment defect; the caller rules it out.
pub fn on_conn_req<C: EmitAccepted>(conn_req: &ConnectionRequest, ctx: &mut C)
    requires
        conn_req.password@ == expected_password() ==> ipv4_mappable(old(ctx).peer().ip)
            && ipv4_mappable(old(ctx).local().ip),
    ensures
        final(ctx).peer() == old(ctx).peer(),
        final(ctx).local() == old(ctx).local(),
        conn_req.password@ != expected_password() ==> final(ctx).is_closed()
            && final(ctx).outbox() == old(ctx).outbox(),
        conn_req.password@ == expected_password()
            ==> final(ctx).is_closed() == old(ctx).is_closed()
            && final(ctx).outbox() == old(ctx).outbox().push(
                OutboundMessage::Accepted(
                    (ConnectionRequestAccepted {
                        peer_addr: normalize_spec(old(ctx).peer()),
                        local_addr: normalize_spec(old(ctx).local()),
                    }),
                ),
            ),
{
    if !password_matches(&conn_req.password) {
        ctx.close_conn();
        return;
    }
    let peer_addr = ctx.peer_addr();
    let local_addr = ctx.local_addr();
    let message = ConnectionRequestAccepted {
        peer_addr: normalize_address(peer_addr),
        local_addr: normalize_address(local_addr),
    };
    ctx.send_accepted(message);
}

/// Admits a session through the two-gate application handshake, first gate
/// first: a wrong protocol version terminates the connection with no reply;
/// with the version right, a service tag other than `Client` does the same;
/// with both right, the reply echoes the server's version constant and the
/// server-chosen service tag.
pub fn on_handshake<C: EmitHandshake>(
    inc_handshake: &IncomingHandshake,
    ctx: &mut C,
    service_id: ServiceId,
)
    ensures
        final(ctx).peer() == old(ctx).peer(),
        final(ctx).local() == old(ctx).local(),
        (inc_handshake.network_version != NETWORK_VERSION || inc_handshake.service_id
            != ServiceId::Client) ==> final(ctx).is_closed()
            && final(ctx).outbox() == old(ctx).outbox(),
        (inc_handshake.network_version == NETWORK_VERSION && inc_handshake.service_id
            == ServiceId::Client) ==> final(ctx).is_closed() == old(ctx).is_closed()
            && final(ctx).outbox() == old(ctx).outbox().push(
                OutboundMessage::Handshake(
                    (OutgoingHandshake { network_version: NETWORK_VERSION, service_id }),
                ),
            ),
{
    if inc_handshake.network_version != NETWORK_VERSION {
        ctx.close_conn();
        return;
    }
    if inc_handshake.service_id != ServiceId::Client {
        ctx.close_conn();
        return;
    }
    let message = OutgoingHandshake { network_version: NETWORK_VERSION, service_id };
    ctx.send_handshake(message);
}

} // verus!
