//! The tunnel initiator: the client side of a tunnel.
//!
//! In direct-proxy mode one stream is opened to the peer and bridged to the
//! standard streams of the process. In local-forward mode a listener on the
//! loopback interface takes local connections, each of which gets a stream
//! and a bridge of its own, and the shell client is started against the
//! listener's port. The caller owns sockets and processes: it reports each
//! thing that happens as an [`OutboundEvent`] and carries out the
//! [`OutboundAction`] that comes back.

use vstd::prelude::*;
use crate::acceptor::BridgeError;

verus! {

/// How the tunnel is offered to the local side.
#[derive(Debug, Clone, Copy, PartialEq, Eq, Structural)]
pub enum TunnelMode {
    /// Through a listener on the loopback interface.
    LocalForward,
    /// Through the standard streams of this process.
    DirectProxy,
}

/// Why a tunnel could not be set up.
#[derive(Debug, Clone, Copy, PartialEq, Eq, Structural)]
pub enum TunnelError {
    /// The peer could not be reached.
    ConnectFailure,
    /// No listener could be bound on the loopback interface.
    ListenerFailure,
    /// No logical stream could be opened to the peer.
    StreamOpenFailure,
}

/// The state of an outbound tunnel.
#[derive(Debug, Clone, Copy, PartialEq, Eq, Structural)]
pub enum Tunnel {
    /// The connection to the peer is being made.
    Dialing { mode: TunnelMode },
    /// Direct proxy: the one stream is being opened.
    Opening,
    /// Direct proxy: the stream is bridged to the standard streams.
    Relaying,
    /// Local forward: the listener is being bound.
    Binding,
    /// Local forward: the listener takes connections on this port.
    Listening { port: u16 },
    /// The tunnel is over.
    Closed,
}

/// Something that happened to an outbound tunnel.
#[derive(Debug, Clone, Copy, PartialEq, Eq, Structural)]
pub enum OutboundEvent {
    /// The peer is connected.
    Connected,
    /// The peer could not be reached.
    ConnectFailed,
    /// The listener is bound to this port.
    ListenerBound { port: u16 },
    /// The listener could not be bound.
    ListenerFailed,
    /// The listener took the local connection with this number.
    LocalAccepted { conn: u64 },
    /// The listener failed to take a connection.
    LocalAcceptFailed,
    /// A stream is open for the local connection with this number; in
    /// direct-proxy mode, for the standard streams.
    StreamOpened { conn: u64 },
    /// No stream could be opened for the local connection with this number;
    /// in direct-proxy mode, for the standard streams.
    StreamOpenFailed { conn: u64 },
    /// The bridge to the standard streams has ended.
    BridgeFinished,
    /// The shell client has exited.
    ClientExited,
    /// The connection to the peer is closed.
    ConnectionClosed,
}

/// What the caller does next.
#[derive(Debug, Clone, Copy, PartialEq, Eq, Structural)]
pub enum OutboundAction {
    /// Open the one stream of the direct proxy.
    OpenProxyStream,
    /// Bridge the stream to the standard streams of the process.
    BridgeStandardStreams,
    /// Bind a listener on an ephemeral port of the loopback interface.
    BindListener,
    /// Start the shell client against this port, and take local
    /// connections.
    LaunchClient { port: u16 },
    /// Open a stream for the local connection with this number.
    OpenStream { conn: u64 },
    /// Start a bridge between the local connection with this number and its
    /// stream.
    SpawnBridge { conn: u64 },
    /// Record the failure and drop the local connection with this number;
    /// the others go on.
    DropLocal { conn: u64, error: BridgeError },
    /// Record the failure and go on taking connections.
    Continue,
    /// Give up: the tunnel could not be set up.
    Fail { cause: TunnelError },
    /// Close the connection to the peer; the tunnel has done its work.
    Close,
    /// Nothing: the event has no meaning in this state.
    Nothing,
}

/// The state of a tunnel that is about to be set up in `mode`.
pub open spec fn tunnel_start(mode: TunnelMode) -> Tunnel {
    Tunnel::Dialing { mode }
}

/// The state after `event`, and the action it calls for.
pub open spec fn outbound_step(tunnel: Tunnel, event: OutboundEvent) -> (Tunnel, OutboundAction) {
    match tunnel {
        Tunnel::Closed => (tunnel, OutboundAction::Nothing),
        Tunnel::Dialing { mode } => match event {
            OutboundEvent::Connected => match mode {
                TunnelMode::DirectProxy => (Tunnel::Opening, OutboundAction::OpenProxyStream),
                TunnelMode::LocalForward => (Tunnel::Binding, OutboundAction::BindListener),
            },
            OutboundEvent::ConnectFailed => (
                Tunnel::Closed,
                OutboundAction::Fail { cause: TunnelError::ConnectFailure },
            ),
            OutboundEvent::ConnectionClosed => (Tunnel::Closed, OutboundAction::Close),
            _ => (tunnel, OutboundAction::Nothing),
        },
        Tunnel::Opening => match event {
            OutboundEvent::StreamOpened { conn } => (
                Tunnel::Relaying,
                OutboundAction::BridgeStandardStreams,
            ),
            OutboundEvent::StreamOpenFailed { conn } => (
                Tunnel::Closed,
                OutboundAction::Fail { cause: TunnelError::StreamOpenFailure },
            ),
            OutboundEvent::ConnectionClosed => (Tunnel::Closed, OutboundAction::Close),
            _ => (tunnel, OutboundAction::Nothing),
        },
        Tunnel::Relaying => match event {
            OutboundEvent::BridgeFinished => (Tunnel::Closed, OutboundAction::Close),
            OutboundEvent::ConnectionClosed => (Tunnel::Closed, OutboundAction::Close),
            _ => (tunnel, OutboundAction::Nothing),
        },
        Tunnel::Binding => match event {
            OutboundEvent::ListenerBound { port } => (
                Tunnel::Listening { port },
                OutboundAction::LaunchClient { port },
            ),
            OutboundEvent::ListenerFailed => (
                Tunnel::Closed,
                OutboundAction::Fail { cause: TunnelError::ListenerFailure },
            ),
            OutboundEvent::ConnectionClosed => (Tunnel::Closed, OutboundAction::Close),
            _ => (tunnel, OutboundAction::Nothing),
        },
        Tunnel::Listening { port } => match event {
            OutboundEvent::LocalAccepted { conn } => (tunnel, OutboundAction::OpenStream { conn }),
            OutboundEvent::LocalAcceptFailed => (tunnel, OutboundAction::Continue),
            OutboundEvent::StreamOpened { conn } => (
                tunnel,
                OutboundAction::SpawnBridge { conn },
            ),
            OutboundEvent::StreamOpenFailed { conn } => (
                tunnel,
                OutboundAction::DropLocal { conn, error: BridgeError::StreamOpenFailure },
            ),
            OutboundEvent::ClientExited => (Tunnel::Closed, OutboundAction::Close),
            OutboundEvent::ConnectionClosed => (Tunnel::Closed, OutboundAction::Close),
            _ => (tunnel, OutboundAction::Nothing),
        },
    }
}

impl Tunnel {
    /// The state of a tunnel that is about to be set up in `mode`.
    pub fn start(mode: TunnelMode) -> (tunnel: Tunnel)
        ensures
            tunnel == tunnel_start(mode),
    {
        Tunnel::Dialing { mode }
    }

    /// Takes `event` into account: moves the tunnel on and says what to do.
    pub fn step(&mut self, event: OutboundEvent) -> (action: OutboundAction)
        ensures
            (*final(self), action) == outbound_step(*old(self), event),
    {
        let (next, action) = match *self {
            Tunnel::Closed => (*self, OutboundAction::Nothing),
            Tunnel::Dialing { mode } => match event {
                OutboundEvent::Connected => match mode {
                    TunnelMode::DirectProxy => (Tunnel::Opening, OutboundAction::OpenProxyStream),
                    TunnelMode::LocalForward => (Tunnel::Binding, OutboundAction::BindListener),
                },
                OutboundEvent::ConnectFailed => (
                    Tunnel::Closed,
                    OutboundAction::Fail { cause: TunnelError::ConnectFailure },
                ),
                OutboundEvent::ConnectionClosed => (Tunnel::Closed, OutboundAction::Close),
                _ => (*self, OutboundAction::Nothing),
            },
            Tunnel::Opening => match event {
                OutboundEvent::StreamOpened { conn } => (
                    Tunnel::Relaying,
                    OutboundAction::BridgeStandardStreams,
                ),
                OutboundEvent::StreamOpenFailed { conn } => (
                    Tunnel::Closed,
                    OutboundAction::Fail { cause: TunnelError::StreamOpenFailure },
                ),
                OutboundEvent::ConnectionClosed => (Tunnel::Closed, OutboundAction::Close),
                _ => (*self, OutboundAction::Nothing),
            },
            Tunnel::Relaying => match event {
                OutboundEvent::BridgeFinished => (Tunnel::Closed, OutboundAction::Close),
                OutboundEvent::ConnectionClosed => (Tunnel::Closed, OutboundAction::Close),
                _ => (*self, OutboundAction::Nothing),
            },
            Tunnel::Binding => match event {
                OutboundEvent::ListenerBound { port } => (
                    Tunnel::Listening { port },
                    OutboundAction::LaunchClient { port },
                ),
                OutboundEvent::ListenerFailed => (
                    Tunnel::Closed,
                    OutboundAction::Fail { cause: TunnelError::ListenerFailure },
                ),
                OutboundEvent::ConnectionClosed => (Tunnel::Closed, OutboundAction::Close),
                _ => (*self, OutboundAction::Nothing),
            },
            Tunnel::Listening { port } => match event {
                OutboundEvent::LocalAccepted { conn } => (
                    *self,
                    OutboundAction::OpenStream { conn },
                ),
                OutboundEvent::LocalAcceptFailed => (*self, OutboundAction::Continue),
                OutboundEvent::StreamOpened { conn } => (
                    *self,
                    OutboundAction::SpawnBridge { conn },
                ),
                OutboundEvent::StreamOpenFailed { conn } => (
                    *self,
                    OutboundAction::DropLocal { conn, error: BridgeError::StreamOpenFailure },
                ),
                OutboundEvent::ClientExited => (Tunnel::Closed, OutboundAction::Close),
                OutboundEvent::ConnectionClosed => (Tunnel::Closed, OutboundAction::Close),
                _ => (*self, OutboundAction::Nothing),
            },
        };
        *self = next;
        action
    }
}

/// A failure that concerns one local connection leaves the listener, and
/// with it every other connection, as it was.
pub proof fn lemma_local_failure_is_isolated(port: u16, event: OutboundEvent)
    requires
        event is LocalAcceptFailed || event is StreamOpenFailed,
    ensures
        outbound_step(Tunnel::Listening { port }, event).0 == (Tunnel::Listening { port }),
        !(outbound_step(Tunnel::Listening { port }, event).1 is Fail),
        !(outbound_step(Tunnel::Listening { port }, event).1 is Close),
{
}

/// The bridge of a local connection is started for that connection and for
/// no other, and only on a listening tunnel.
pub proof fn lemma_bridge_is_for_its_connection(tunnel: Tunnel, event: OutboundEvent, conn: u64)
    requires
        outbound_step(tunnel, event).1 == (OutboundAction::SpawnBridge { conn }),
    ensures
        tunnel is Listening,
        event == (OutboundEvent::StreamOpened { conn }),
{
}

/// A direct proxy opens exactly one stream: once it relays, no event makes
/// it open another or start a second bridge.
pub proof fn lemma_direct_proxy_has_one_stream(event: OutboundEvent)
    ensures
        !(outbound_step(Tunnel::Relaying, event).1 is OpenProxyStream),
        !(outbound_step(Tunnel::Relaying, event).1 is BridgeStandardStreams),
        !(outbound_step(Tunnel::Relaying, event).1 is OpenStream),
        !(outbound_step(Tunnel::Relaying, event).1 is SpawnBridge),
{
}

} // verus!
