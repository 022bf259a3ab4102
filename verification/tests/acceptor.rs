use iroh_ssh::acceptor::{
    Acceptor, BridgeError, InboundAction, InboundEvent, ProtocolError, Session,
};
use iroh_ssh::{Builder, IrohSsh};

const PEER: [u8; 32] = [9u8; 32];

fn negotiated(tag: &[u8], peer: Option<[u8; 32]>) -> InboundEvent {
    InboundEvent::Negotiated { tag: tag.to_vec(), peer }
}

fn tunnel_acceptor() -> Acceptor {
    Acceptor::new(b"/app/tunnel".to_vec(), 22)
}

fn every_event() -> Vec<InboundEvent> {
    vec![
        negotiated(b"/app/tunnel", Some(PEER)),
        negotiated(b"other", Some(PEER)),
        InboundEvent::StreamAccepted,
        InboundEvent::LocalConnected,
        InboundEvent::LocalConnectFailed,
        InboundEvent::AcceptFailed,
        InboundEvent::ConnectionClosed,
    ]
}

#[test]
fn other_tag_is_rejected_without_bridging() {
    let acceptor = tunnel_acceptor();
    let mut session = Acceptor::session();
    assert_eq!(session, Session::Negotiating);
    let action = acceptor.accept(&mut session, &negotiated(b"other", Some(PEER)));
    assert_eq!(action, InboundAction::Reject { reason: ProtocolError::UnsupportedTag });
    assert_eq!(session, Session::Rejected { reason: ProtocolError::UnsupportedTag });
}

#[test]
fn rejected_connection_never_opens_a_local_connection() {
    let acceptor = tunnel_acceptor();
    for first in every_event() {
        for second in every_event() {
            let mut session = Acceptor::session();
            acceptor.accept(&mut session, &negotiated(b"other", Some(PEER)));
            for event in [first.clone(), second.clone(), InboundEvent::StreamAccepted] {
                let action = acceptor.accept(&mut session, &event);
                assert!(!matches!(
                    action,
                    InboundAction::ConnectLocal { .. } | InboundAction::SpawnBridge
                ));
                assert!(matches!(session, Session::Rejected { .. } | Session::Closed));
            }
        }
    }
}

#[test]
fn unsupported_tag_closes_the_connection() {
    let acceptor = tunnel_acceptor();
    let mut session = Acceptor::session();
    acceptor.accept(&mut session, &negotiated(b"/app/tunnel2", None));
    assert_eq!(session, Session::Rejected { reason: ProtocolError::UnsupportedTag });
    let action = acceptor.accept(&mut session, &InboundEvent::ConnectionClosed);
    assert_eq!(action, InboundAction::Close);
    assert_eq!(session, Session::Closed);
}

#[test]
fn prefix_of_the_tag_is_another_tag() {
    let acceptor = tunnel_acceptor();
    for tag in [&b"/app/tunne"[..], &b""[..], &b"/app/tunnel/"[..], &b"/APP/TUNNEL"[..]] {
        let mut session = Acceptor::session();
        let action = acceptor.accept(&mut session, &negotiated(tag, Some(PEER)));
        assert_eq!(action, InboundAction::Reject { reason: ProtocolError::UnsupportedTag });
    }
}

#[test]
fn peer_without_identity_is_rejected() {
    let acceptor = tunnel_acceptor();
    let mut session = Acceptor::session();
    let action = acceptor.accept(&mut session, &negotiated(b"/app/tunnel", None));
    assert_eq!(action, InboundAction::Reject { reason: ProtocolError::PeerIdentityUnavailable });
    assert_eq!(session, Session::Rejected { reason: ProtocolError::PeerIdentityUnavailable });
    let action = acceptor.accept(&mut session, &InboundEvent::StreamAccepted);
    assert_eq!(action, InboundAction::Nothing);
}

#[test]
fn authorized_connection_bridges_each_stream() {
    let acceptor = Acceptor::new(b"/app/tunnel".to_vec(), 2222);
    let mut session = Acceptor::session();
    let action = acceptor.accept(&mut session, &negotiated(b"/app/tunnel", Some(PEER)));
    assert_eq!(action, InboundAction::AcceptStream);
    assert_eq!(session, Session::Authorized { peer: PEER });
    for _ in 0..3 {
        let action = acceptor.accept(&mut session, &InboundEvent::StreamAccepted);
        assert_eq!(action, InboundAction::ConnectLocal { port: 2222 });
        assert_eq!(session, Session::Bridging { peer: PEER });
        let action = acceptor.accept(&mut session, &InboundEvent::LocalConnected);
        assert_eq!(action, InboundAction::SpawnBridge);
        assert_eq!(session, Session::Bridging { peer: PEER });
    }
    let action = acceptor.accept(&mut session, &InboundEvent::AcceptFailed);
    assert_eq!(action, InboundAction::Close);
    assert_eq!(session, Session::Closed);
}

#[test]
fn local_connect_failure_costs_one_stream_only() {
    let acceptor = tunnel_acceptor();
    let mut session = Acceptor::session();
    acceptor.accept(&mut session, &negotiated(b"/app/tunnel", Some(PEER)));
    acceptor.accept(&mut session, &InboundEvent::StreamAccepted);
    let action = acceptor.accept(&mut session, &InboundEvent::LocalConnectFailed);
    assert_eq!(action, InboundAction::DropStream { error: BridgeError::LocalConnectFailure });
    assert_eq!(session, Session::Bridging { peer: PEER });
    let action = acceptor.accept(&mut session, &InboundEvent::StreamAccepted);
    assert_eq!(action, InboundAction::ConnectLocal { port: 22 });
}

#[test]
fn events_out_of_place_do_nothing() {
    let acceptor = tunnel_acceptor();
    let mut session = Acceptor::session();
    for event in [
        InboundEvent::StreamAccepted,
        InboundEvent::LocalConnected,
        InboundEvent::LocalConnectFailed,
        InboundEvent::AcceptFailed,
    ] {
        assert_eq!(acceptor.accept(&mut session, &event), InboundAction::Nothing);
        assert_eq!(session, Session::Negotiating);
    }
    acceptor.accept(&mut session, &negotiated(b"/app/tunnel", Some(PEER)));
    assert_eq!(acceptor.accept(&mut session, &InboundEvent::LocalConnected), InboundAction::Nothing);
    assert_eq!(
        acceptor.accept(&mut session, &negotiated(b"other", Some(PEER))),
        InboundAction::Nothing
    );
    assert_eq!(session, Session::Authorized { peer: PEER });
}

#[test]
fn closed_connection_stays_closed() {
    let acceptor = tunnel_acceptor();
    let mut session = Acceptor::session();
    acceptor.accept(&mut session, &negotiated(b"/app/tunnel", Some(PEER)));
    acceptor.accept(&mut session, &InboundEvent::ConnectionClosed);
    assert_eq!(session, Session::Closed);
    for event in every_event() {
        let action = acceptor.accept(&mut session, &event);
        assert!(matches!(action, InboundAction::Nothing | InboundAction::Close));
        assert_eq!(session, Session::Closed);
    }
}

#[test]
fn node_acceptor_serves_the_tunnel_tag_on_the_node_port() {
    let node = Builder::new().accept_incoming(true).accept_port(2022).build();
    let acceptor = node.acceptor().unwrap();
    let mut session = Acceptor::session();
    let action = acceptor.accept(&mut session, &negotiated(&IrohSsh::ALPN(), Some(PEER)));
    assert_eq!(action, InboundAction::AcceptStream);
    let action = acceptor.accept(&mut session, &InboundEvent::StreamAccepted);
    assert_eq!(action, InboundAction::ConnectLocal { port: 2022 });
    let mut session = Acceptor::session();
    let action = acceptor.accept(&mut session, &negotiated(b"/app/tunnel", Some(PEER)));
    assert_eq!(action, InboundAction::Reject { reason: ProtocolError::UnsupportedTag });
}
