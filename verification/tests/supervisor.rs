use iroh_ssh::bridge::{BridgeState, Direction, PumpAction, RelayPolicy};
use iroh_ssh::supervisor::Supervisor;

fn payload_of(connection: usize, len: usize) -> Vec<u8> {
    (0..len).map(|i| (i as u8).wrapping_mul(31).wrapping_add(connection as u8 * 50)).collect()
}

#[test]
fn five_connections_are_never_cross_delivered() {
    let mut supervisor = Supervisor::new();
    let count = 5;
    let ids: Vec<usize> =
        (0..count).map(|i| supervisor.open(i as u64, RelayPolicy::FirstWins, 64)).collect();
    assert_eq!(ids, vec![0, 1, 2, 3, 4]);
    assert_eq!(supervisor.len(), 5);
    let payloads: Vec<Vec<u8>> = (0..count).map(|i| payload_of(i, 1000 + 37 * i)).collect();
    let mut sent = vec![0usize; count];
    let mut sinks: Vec<Vec<u8>> = vec![Vec::new(); count];
    let mut round = 0usize;
    loop {
        let mut progressed = false;
        for step in 0..count {
            let i = (step * 3 + round) % count;
            match supervisor.next(i, Direction::Outbound) {
                PumpAction::Read { max } => {
                    let n = max.min(1 + (round + i) % 50).min(payloads[i].len() - sent[i]);
                    assert!(supervisor.on_read(
                        i,
                        Direction::Outbound,
                        &payloads[i][sent[i]..sent[i] + n]
                    ));
                    sent[i] += n;
                    progressed = true;
                }
                PumpAction::Write { len } => {
                    let n = len.min(1 + (round * 7 + i) % 40);
                    let pending = supervisor.pending(i, Direction::Outbound).unwrap();
                    sinks[i].extend_from_slice(&pending[..n]);
                    assert!(supervisor.on_written(i, Direction::Outbound, n));
                    progressed = true;
                }
                PumpAction::Done => {}
            }
        }
        round += 1;
        if !progressed {
            break;
        }
    }
    for i in 0..count {
        assert_eq!(sinks[i], payloads[i]);
        assert_eq!(supervisor.copied(i, Direction::Outbound), Some(payloads[i].len() as u64));
        assert_eq!(supervisor.copied(i, Direction::Inbound), Some(0));
        assert_eq!(supervisor.state(i), Some(BridgeState::Closed));
        for j in 0..count {
            if i != j {
                assert_ne!(sinks[i], payloads[j]);
            }
        }
    }
    assert!(supervisor.all_closed());
}

#[test]
fn an_event_touches_one_bridge_only() {
    let mut supervisor = Supervisor::new();
    let a = supervisor.open(1, RelayPolicy::WaitBothHalfClose, 8);
    let b = supervisor.open(1, RelayPolicy::WaitBothHalfClose, 8);
    assert!(supervisor.on_read(a, Direction::Outbound, &[1, 2, 3]));
    assert_eq!(supervisor.pending(b, Direction::Outbound).unwrap(), &[] as &[u8]);
    assert_eq!(supervisor.next(b, Direction::Outbound), PumpAction::Read { max: 8 });
    assert!(supervisor.on_failed(a, Direction::Inbound));
    assert_eq!(supervisor.state(a), Some(BridgeState::Closing));
    assert_eq!(supervisor.state(b), Some(BridgeState::Active));
    assert!(supervisor.cancel(a));
    assert_eq!(supervisor.state(a), Some(BridgeState::Closed));
    assert_eq!(supervisor.state(b), Some(BridgeState::Active));
    assert!(!supervisor.all_closed());
}

#[test]
fn unknown_bridge_numbers_change_nothing() {
    let mut supervisor = Supervisor::new();
    assert!(supervisor.all_closed());
    assert_eq!(supervisor.len(), 0);
    assert!(!supervisor.on_read(0, Direction::Outbound, &[1]));
    assert!(!supervisor.on_written(3, Direction::Inbound, 1));
    assert!(!supervisor.on_failed(1, Direction::Inbound));
    assert!(!supervisor.cancel(0));
    assert_eq!(supervisor.state(0), None);
    assert_eq!(supervisor.copied(0, Direction::Outbound), None);
    assert!(supervisor.pending(0, Direction::Outbound).is_none());
    assert_eq!(supervisor.next(0, Direction::Outbound), PumpAction::Done);
    let id = supervisor.open(9, RelayPolicy::FirstWins, 0);
    assert_eq!(supervisor.owner(0), Some(9));
    assert_eq!(supervisor.owner(1), None);
    assert_eq!(id, 0);
    assert_eq!(supervisor.next(0, Direction::Outbound), PumpAction::Read { max: 1 });
    assert!(!supervisor.on_read(1, Direction::Outbound, &[1]));
    assert_eq!(supervisor.len(), 1);
}

#[test]
fn shutdown_closes_every_bridge() {
    let mut supervisor = Supervisor::new();
    for owner in 0..4 {
        supervisor.open(owner, RelayPolicy::WaitBothHalfClose, 16);
    }
    assert!(supervisor.on_read(2, Direction::Outbound, &[9, 9]));
    assert!(!supervisor.all_closed());
    supervisor.shutdown();
    assert!(supervisor.all_closed());
    for id in 0..4 {
        assert_eq!(supervisor.state(id), Some(BridgeState::Closed));
        assert_eq!(supervisor.next(id, Direction::Outbound), PumpAction::Done);
        assert_eq!(supervisor.next(id, Direction::Inbound), PumpAction::Done);
        assert!(!supervisor.on_read(id, Direction::Inbound, &[1]));
    }
    assert!(!supervisor.on_written(2, Direction::Outbound, 2));
    assert_eq!(supervisor.len(), 4);
}

#[test]
fn closing_a_connection_closes_its_bridges_only() {
    let mut supervisor = Supervisor::new();
    let owners = [7u64, 8, 7, 9, 7];
    for owner in owners {
        supervisor.open(owner, RelayPolicy::WaitBothHalfClose, 16);
    }
    assert!(supervisor.on_read(1, Direction::Outbound, &[1, 2, 3]));
    assert!(supervisor.on_read(2, Direction::Outbound, &[4, 5]));
    supervisor.close_connection(7);
    for (id, owner) in owners.iter().enumerate() {
        assert_eq!(supervisor.owner(id), Some(*owner));
        let expected = if *owner == 7 { BridgeState::Closed } else { BridgeState::Active };
        assert_eq!(supervisor.state(id), Some(expected));
    }
    assert_eq!(supervisor.next(2, Direction::Outbound), PumpAction::Done);
    assert_eq!(supervisor.next(1, Direction::Outbound), PumpAction::Write { len: 3 });
    assert!(supervisor.on_written(1, Direction::Outbound, 3));
    assert!(!supervisor.on_written(2, Direction::Outbound, 2));
    supervisor.close_connection(100);
    assert_eq!(supervisor.state(1), Some(BridgeState::Active));
    assert_eq!(supervisor.state(3), Some(BridgeState::Active));
    supervisor.close_connection(8);
    supervisor.close_connection(9);
    assert!(supervisor.all_closed());
}
