//! End-to-end tests of the overlay state machine, driving `P2PManager`
//! exactly as the surrounding runtime would.

use p2p_overlay::codec::{encode_operation, encode_request};
use p2p_overlay::manager::{NetAction, NetEvent, P2PManager, PeerBootstrapProgress};
use p2p_overlay::proto::{Operation, Request};
use p2p_overlay::target::{LibraryState, SyncTarget};

fn node_with_library(id: u128, info: Vec<u8>) -> P2PManager {
    let mut t = SyncTarget::new();
    t.add_library(LibraryState::empty(id, info));
    P2PManager::new(t)
}

#[test]
fn discovery_event_asks_for_exactly_one_dial() {
    let mut m = P2PManager::new(SyncTarget::new());
    let actions = m.handle_event(NetEvent::PeerDiscovered(44));
    assert_eq!(actions.len(), 1);
    assert!(matches!(actions[0], NetAction::Dial(44)));
    let actions = m.handle_event(NetEvent::DialResponded { peer: 44, success: true });
    assert!(actions.is_empty());
}

#[test]
fn unicast_request_is_answered_or_the_stream_closed() {
    let mut m = node_with_library(5, vec![11]);
    let actions = m.handle_event(NetEvent::UnicastRequest {
        peer: 44,
        data: encode_request(&Request::GetLibrary(5)),
    });
    assert_eq!(actions.len(), 1);
    match &actions[0] {
        NetAction::Reply { peer, data } => {
            assert_eq!(*peer, 44);
            assert_eq!(*data, vec![2, 11]);
        }
        other => panic!("expected a reply, got {:?}", other),
    }
    let actions = m.handle_event(NetEvent::UnicastRequest { peer: 44, data: vec![9, 9] });
    assert_eq!(actions.len(), 1);
    assert!(matches!(actions[0], NetAction::CloseStream { peer: 44 }));
}

#[test]
fn queued_operation_is_broadcast_once() {
    let mut m = node_with_library(1, vec![]);
    let o = Operation { library: 1, actor: 2, clock: 3, payload: vec![5] };
    let encoded = encode_operation(&o);
    let actions = m.handle_event(NetEvent::OperationQueued(o));
    assert_eq!(actions.len(), 1);
    match &actions[0] {
        NetAction::Broadcast(data) => assert_eq!(*data, encoded),
        other => panic!("expected a broadcast, got {:?}", other),
    }
}

#[test]
fn probe_ticks_ping_after_the_grace_period() {
    let mut m = P2PManager::new(SyncTarget::new());
    assert!(m.handle_event(NetEvent::ProbeTick).is_empty());
    let actions = m.handle_event(NetEvent::ProbeTick);
    assert_eq!(actions.len(), 1);
    match &actions[0] {
        NetAction::Broadcast(data) => assert_eq!(*data, encode_request(&Request::Ping)),
        other => panic!("expected a ping broadcast, got {:?}", other),
    }
}

#[test]
fn bootstrap_progress_counts_up() {
    let mut p = PeerBootstrapProgress::new();
    assert!(!p.is_complete());
    p.set_completed(40);
    assert_eq!(p, PeerBootstrapProgress { completed: 40 });
    p.set_completed(100);
    assert!(p.is_complete());
    assert_eq!(PeerBootstrapProgress::default().completed, 0);
}

/// Three nodes start; the first discovers and dials the two others, then
/// enqueues one operation for its library.  Both receivers apply it exactly
/// once — also under re-delivery — and end in identical state for that
/// library.
#[test]
fn three_nodes_converge_on_one_operation() {
    let node_b: u128 = 200;
    let node_c: u128 = 300;

    let mut a = node_with_library(1, vec![]);
    let mut b = node_with_library(1, vec![]);
    let mut c = node_with_library(1, vec![]);

    // A discovers B and C and dials both, once each.
    let dial_b = a.handle_event(NetEvent::PeerDiscovered(node_b));
    let dial_c = a.handle_event(NetEvent::PeerDiscovered(node_c));
    assert!(matches!(dial_b[..], [NetAction::Dial(p)] if p == node_b));
    assert!(matches!(dial_c[..], [NetAction::Dial(p)] if p == node_c));
    a.handle_event(NetEvent::DialResponded { peer: node_b, success: true });
    a.handle_event(NetEvent::DialResponded { peer: node_c, success: true });

    // A enqueues one operation; the overlay broadcasts one payload.
    let o = Operation { library: 1, actor: 100, clock: 1, payload: vec![4, 2] };
    let actions = a.handle_event(NetEvent::OperationQueued(o.duplicate()));
    let payload = match &actions[..] {
        [NetAction::Broadcast(data)] => data.clone(),
        other => panic!("expected one broadcast, got {:?}", other),
    };

    // B and C each receive the payload; C receives it twice.
    assert!(b
        .handle_event(NetEvent::BroadcastReceived { peer: 100, data: payload.clone() })
        .is_empty());
    assert!(c
        .handle_event(NetEvent::BroadcastReceived { peer: 100, data: payload.clone() })
        .is_empty());
    assert!(c
        .handle_event(NetEvent::BroadcastReceived { peer: 100, data: payload })
        .is_empty());

    // Both applied it exactly once and hold identical state for library 1.
    let lib_b = &b.target.libraries[0];
    let lib_c = &c.target.libraries[0];
    assert_eq!(lib_b.applied.len(), 1);
    assert_eq!(lib_c.applied.len(), 1);
    assert!(lib_b.contains_op(&o));
    assert!(lib_c.contains_op(&o));
    assert!(lib_b.applied[0].same_as(&lib_c.applied[0]));
}
