//! The protocol acceptor: what to do with an inbound connection.
//!
//! The caller owns the connection. It reports each thing that happens on it
//! as an [`InboundEvent`] and carries out the [`InboundAction`] that comes
//! back. A connection that negotiated another application tag, or whose peer
//! has no identity, is rejected, and no local connection is ever opened for
//! it.

use vstd::prelude::*;

verus! {

/// Why an inbound connection is not served.
#[derive(Debug, Clone, Copy, PartialEq, Eq, Structural)]
pub enum ProtocolError {
    /// The connection negotiated a tag other than the tunnel's.
    UnsupportedTag,
    /// The identity of the remote peer could not be had.
    PeerIdentityUnavailable,
}

/// Why one stream is not bridged.
#[derive(Debug, Clone, Copy, PartialEq, Eq, Structural)]
pub enum BridgeError {
    /// The local target did not accept the connection.
    LocalConnectFailure,
    /// No logical stream could be opened to the peer.
    StreamOpenFailure,
}

/// The state of one inbound connection.
#[derive(Debug, Clone, Copy, PartialEq, Eq)]
pub enum Session {
    /// Nothing is known of the connection yet.
    Negotiating,
    /// Tag and peer are accepted, and no stream has arrived yet.
    Authorized { peer: [u8; 32] },
    /// At least one stream has arrived.
    Bridging { peer: [u8; 32] },
    /// The connection was refused.
    Rejected { reason: ProtocolError },
    /// The connection is over.
    Closed,
}

/// Something that happened on an inbound connection.
#[derive(Debug, Clone, PartialEq, Eq)]
pub enum InboundEvent {
    /// The handshake is done: the negotiated tag, and the peer's identity if
    /// it has one.
    Negotiated { tag: Vec<u8>, peer: Option<[u8; 32]> },
    /// A logical stream arrived.
    StreamAccepted,
    /// The local target accepted the connection made for a stream.
    LocalConnected,
    /// The local target refused the connection made for a stream.
    LocalConnectFailed,
    /// No further stream can be accepted.
    AcceptFailed,
    /// The connection is closed.
    ConnectionClosed,
}

/// What the caller does next.
#[derive(Debug, Clone, Copy, PartialEq, Eq, Structural)]
pub enum InboundAction {
    /// Wait for the next stream.
    AcceptStream,
    /// Open a connection to the local target at this port, for the stream
    /// that has just arrived, and go on accepting.
    ConnectLocal { port: u16 },
    /// Start a bridge between the stream and its local connection.
    SpawnBridge,
    /// Record the failure and drop the one stream it concerns.
    DropStream { error: BridgeError },
    /// Tell the peer that it is not allowed, and close the connection.
    Reject { reason: ProtocolError },
    /// Close the connection.
    Close,
    /// Nothing: the event has no meaning in this state.
    Nothing,
}

/// The acceptor's configuration: the tag it serves and the local target.
#[derive(Debug, Clone)]
pub struct Acceptor {
    tag: Vec<u8>,
    port: u16,
}

impl InboundAction {
    /// Whether the action opens a local connection or starts a bridge.
    pub open spec fn bridges(self) -> bool {
        self is ConnectLocal || self is SpawnBridge
    }
}

impl Session {
    /// Whether the connection was refused or is over.
    pub open spec fn is_finished(self) -> bool {
        self is Rejected || self is Closed
    }
}

/// The state after `event`, and the action it calls for, for an acceptor
/// that serves `tag` and bridges to `port`.
pub open spec fn inbound_step(tag: Seq<u8>, port: u16, session: Session, event: InboundEvent) -> (
    Session,
    InboundAction,
) {
    match event {
        InboundEvent::ConnectionClosed => (Session::Closed, InboundAction::Close),
        InboundEvent::Negotiated { tag: negotiated, peer } => match session {
            Session::Negotiating => if negotiated@ != tag {
                (
                    Session::Rejected { reason: ProtocolError::UnsupportedTag },
                    InboundAction::Reject { reason: ProtocolError::UnsupportedTag },
                )
            } else {
                match peer {
                    Some(peer) => (Session::Authorized { peer }, InboundAction::AcceptStream),
                    None => (
                        Session::Rejected { reason: ProtocolError::PeerIdentityUnavailable },
                        InboundAction::Reject { reason: ProtocolError::PeerIdentityUnavailable },
                    ),
                }
            },
            _ => (session, InboundAction::Nothing),
        },
        InboundEvent::StreamAccepted => match session {
            Session::Authorized { peer } => (
                Session::Bridging { peer },
                InboundAction::ConnectLocal { port },
            ),
            Session::Bridging { peer } => (session, InboundAction::ConnectLocal { port }),
            _ => (session, InboundAction::Nothing),
        },
        InboundEvent::LocalConnected => match session {
            Session::Bridging { peer } => (session, InboundAction::SpawnBridge),
            _ => (session, InboundAction::Nothing),
        },
        InboundEvent::LocalConnectFailed => match session {
            Session::Bridging { peer } => (
                session,
                InboundAction::DropStream { error: BridgeError::LocalConnectFailure },
            ),
            _ => (session, InboundAction::Nothing),
        },
        InboundEvent::AcceptFailed => match session {
            Session::Authorized { peer } => (Session::Closed, InboundAction::Close),
            Session::Bridging { peer } => (Session::Closed, InboundAction::Close),
            _ => (session, InboundAction::Nothing),
        },
    }
}

/// The state after all of `events`, in their order.
pub open spec fn inbound_run(tag: Seq<u8>, port: u16, session: Session, events: Seq<InboundEvent>)
    -> Session
    decreases events.len(),
{
    if events.len() == 0 {
        session
    } else {
        inbound_step(
            tag,
            port,
            inbound_run(tag, port, session, events.drop_last()),
            events.last(),
        ).0
    }
}

/// The action that the last of `events` calls for. `events` is not empty.
pub open spec fn inbound_last_action(
    tag: Seq<u8>,
    port: u16,
    session: Session,
    events: Seq<InboundEvent>,
) -> InboundAction {
    inbound_step(tag, port, inbound_run(tag, port, session, events.drop_last()), events.last()).1
}

fn same_bytes(a: &Vec<u8>, b: &Vec<u8>) -> (same: bool)
    ensures
        same == (a@ == b@),
{
    if a.len() != b.len() {
        return false;
    }
    let mut i: usize = 0;
    while i < a.len()
        invariant
            i <= a.len(),
            a.len() == b.len(),
            forall|j: int| 0 <= j < i ==> a@[j] == b@[j],
        decreases a.len() - i,
    {
        if a[i] != b[i] {
            return false;
        }
        i += 1;
    }
    assert(a@ =~= b@);
    true
}

impl Acceptor {
    /// An acceptor that serves connections which negotiated `tag`, and
    /// bridges their streams to the local port `port`.
    pub fn new(tag: Vec<u8>, port: u16) -> (acceptor: Acceptor)
        ensures
            acceptor.tag() == tag@,
            acceptor.port() == port,
    {
        Acceptor { tag, port }
    }

    /// The tag that this acceptor serves.
    pub closed spec fn tag(&self) -> Seq<u8> {
        self.tag@
    }

    /// The local port that this acceptor bridges to.
    pub closed spec fn port(&self) -> u16 {
        self.port
    }

    /// The state of a connection that has just come in.
    pub fn session() -> (session: Session)
        ensures
            session == Session::Negotiating,
    {
        Session::Negotiating
    }

    /// Takes `event` into account: moves `session` on and says what to do.
    pub fn accept(&self, session: &mut Session, event: &InboundEvent) -> (action: InboundAction)
        ensures
            (*final(session), action) == inbound_step(
                self.tag(),
                self.port(),
                *old(session),
                *event,
            ),
    {
        let (next, action) = match event {
            InboundEvent::ConnectionClosed => (Session::Closed, InboundAction::Close),
            InboundEvent::Negotiated { tag, peer } => match *session {
                Session::Negotiating => {
                    if !same_bytes(tag, &self.tag) {
                        (
                            Session::Rejected { reason: ProtocolError::UnsupportedTag },
                            InboundAction::Reject { reason: ProtocolError::UnsupportedTag },
                        )
                    } else {
                        match peer {
                            Some(peer) => (
                                Session::Authorized { peer: *peer },
                                InboundAction::AcceptStream,
                            ),
                            None => (
                                Session::Rejected {
                                    reason: ProtocolError::PeerIdentityUnavailable,
                                },
                                InboundAction::Reject {
                                    reason: ProtocolError::PeerIdentityUnavailable,
                                },
                            ),
                        }
                    }
                },
                _ => (*session, InboundAction::Nothing),
            },
            InboundEvent::StreamAccepted => match *session {
                Session::Authorized { peer } => (
                    Session::Bridging { peer },
                    InboundAction::ConnectLocal { port: self.port },
                ),
                Session::Bridging { peer } => (
                    *session,
                    InboundAction::ConnectLocal { port: self.port },
                ),
                _ => (*session, InboundAction::Nothing),
            },
            InboundEvent::LocalConnected => match *session {
                Session::Bridging { peer } => (*session, InboundAction::SpawnBridge),
                _ => (*session, InboundAction::Nothing),
            },
            InboundEvent::LocalConnectFailed => match *session {
                Session::Bridging { peer } => (
                    *session,
                    InboundAction::DropStream { error: BridgeError::LocalConnectFailure },
                ),
                _ => (*session, InboundAction::Nothing),
            },
            InboundEvent::AcceptFailed => match *session {
                Session::Authorized { peer } => (Session::Closed, InboundAction::Close),
                Session::Bridging { peer } => (Session::Closed, InboundAction::Close),
                _ => (*session, InboundAction::Nothing),
            },
        };
        *session = next;
        action
    }
}

/// A connection that negotiated another tag than the acceptor's is rejected
/// at once, whoever the peer is.
pub proof fn lemma_other_tag_is_rejected(
    tag: Seq<u8>,
    port: u16,
    negotiated: Vec<u8>,
    peer: Option<[u8; 32]>,
)
    requires
        negotiated@ != tag,
    ensures
        inbound_step(
            tag,
            port,
            Session::Negotiating,
            InboundEvent::Negotiated { tag: negotiated, peer },
        ) == (
            Session::Rejected { reason: ProtocolError::UnsupportedTag },
            InboundAction::Reject { reason: ProtocolError::UnsupportedTag },
        ),
{
}

/// Once a connection is rejected or closed it stays so, whatever happens on
/// it.
pub proof fn lemma_finished_stays_finished(
    tag: Seq<u8>,
    port: u16,
    session: Session,
    events: Seq<InboundEvent>,
)
    requires
        session.is_finished(),
    ensures
        inbound_run(tag, port, session, events).is_finished(),
    decreases events.len(),
{
    if events.len() > 0 {
        lemma_finished_stays_finished(tag, port, session, events.drop_last());
    }
}

/// No bridging without authorization: after a connection is rejected or
/// closed, no event on it, however many came before, makes the acceptor open
/// a local connection or start a bridge.
pub proof fn lemma_rejected_never_bridges(
    tag: Seq<u8>,
    port: u16,
    session: Session,
    events: Seq<InboundEvent>,
)
    requires
        session.is_finished(),
        events.len() > 0,
    ensures
        !inbound_last_action(tag, port, session, events).bridges(),
{
    lemma_finished_stays_finished(tag, port, session, events.drop_last());
}

/// A local connection is opened, or a bridge started, only for a connection
/// in the bridging state: one that negotiated the acceptor's tag and whose
/// peer is known.
pub proof fn lemma_bridging_needs_authorization(
    tag: Seq<u8>,
    port: u16,
    session: Session,
    event: InboundEvent,
)
    requires
        inbound_step(tag, port, session, event).1.bridges(),
    ensures
        inbound_step(tag, port, session, event).0 is Bridging,
        session is Authorized || session is Bridging,
{
}

} // verus!
