//! Behavioural tests for the overlay's components: applying operations,
//! dispatching requests, fanning broadcasts out, discovery and liveness.

use p2p_overlay::broadcast::{drain_queue, fan_out};
use p2p_overlay::codec::{encode_operation, encode_request};
use p2p_overlay::discovery::{ConnectionTable, DiscoveryReactor, PeerStatus};
use p2p_overlay::dispatch::{handle, receive_broadcast, ProtocolError};
use p2p_overlay::error::Error;
use p2p_overlay::peer_metadata::{provide, OperatingSystem};
use p2p_overlay::prober::ProberState;
use p2p_overlay::proto::{Operation, Request, Response};
use p2p_overlay::target::{LibraryState, SyncTarget};

fn op(library: u128, actor: u128, clock: u64, payload: Vec<u8>) -> Operation {
    Operation { library, actor, clock, payload }
}

fn node_with_library(id: u128, info: Vec<u8>) -> SyncTarget {
    let mut t = SyncTarget::new();
    t.add_library(LibraryState::empty(id, info));
    t
}

#[test]
fn apply_is_idempotent() {
    let mut t = node_with_library(1, vec![]);
    let o = op(1, 7, 1, vec![42]);
    t.apply(&o);
    let once = t.libraries[0].applied.len();
    assert_eq!(once, 1);
    t.apply(&o.duplicate());
    assert_eq!(t.libraries[0].applied.len(), once);
    assert!(t.libraries[0].contains_op(&o));
}

#[test]
fn apply_ignores_foreign_library() {
    let mut t = node_with_library(1, vec![]);
    let foreign = op(2, 7, 1, vec![42]);
    t.apply(&foreign);
    assert_eq!(t.libraries[0].applied.len(), 0);
    assert!(!t.libraries[0].contains_op(&foreign));
}

#[test]
fn distinct_operations_accumulate() {
    let mut t = node_with_library(1, vec![]);
    t.apply(&op(1, 7, 1, vec![1]));
    t.apply(&op(1, 7, 2, vec![2]));
    t.apply(&op(1, 8, 1, vec![3]));
    assert_eq!(t.libraries[0].applied.len(), 3);
}

#[test]
fn ping_is_answered_with_the_empty_payload() {
    let t = SyncTarget::new();
    let raw = encode_request(&Request::Ping);
    let reply = handle(&raw, &t).expect("ping must be answered");
    assert!(reply.is_empty());
}

#[test]
fn get_library_is_answered_with_its_description() {
    let t = node_with_library(5, vec![11, 22]);
    let raw = encode_request(&Request::GetLibrary(5));
    let reply = handle(&raw, &t).expect("held library must be answered");
    assert_eq!(reply, vec![2, 11, 22]);
}

#[test]
fn get_unknown_library_is_answered_empty() {
    let t = node_with_library(5, vec![11, 22]);
    let raw = encode_request(&Request::GetLibrary(6));
    let reply = handle(&raw, &t).expect("unknown library is still answered");
    assert!(reply.is_empty());
}

#[test]
fn malformed_request_is_a_protocol_error() {
    let t = SyncTarget::new();
    assert_eq!(handle(&[99, 99, 99], &t), Err(ProtocolError::Malformed));
}

#[test]
fn broadcast_operation_is_applied_and_ping_ignored() {
    let mut t = node_with_library(1, vec![]);
    let o = op(1, 9, 4, vec![7]);
    assert!(receive_broadcast(&encode_operation(&o), &mut t).is_ok());
    assert!(t.libraries[0].contains_op(&o));
    assert!(receive_broadcast(&encode_request(&Request::Ping), &mut t).is_ok());
    assert_eq!(t.libraries[0].applied.len(), 1);
    assert_eq!(
        receive_broadcast(&[250, 0], &mut t),
        Err(ProtocolError::Malformed)
    );
    assert_eq!(t.libraries[0].applied.len(), 1);
}

#[test]
fn fan_out_plans_one_delivery_per_peer() {
    let o = op(1, 2, 3, vec![4]);
    let peers = vec![100, 200, 300];
    let plan = fan_out(&o, &peers);
    assert_eq!(plan.len(), 3);
    let encoded = encode_operation(&o);
    for (j, d) in plan.iter().enumerate() {
        assert_eq!(d.peer, peers[j]);
        assert_eq!(d.payload, encoded);
    }
}

#[test]
fn fan_out_to_nobody_plans_nothing() {
    let o = op(1, 2, 3, vec![4]);
    assert!(fan_out(&o, &vec![]).is_empty());
}

#[test]
fn drain_preserves_producer_order() {
    let ops = vec![op(1, 2, 1, vec![1]), op(1, 2, 2, vec![2]), op(1, 2, 3, vec![3])];
    let payloads = drain_queue(&ops);
    assert_eq!(payloads.len(), 3);
    for i in 0..3 {
        assert_eq!(payloads[i], encode_operation(&ops[i]));
    }
}

#[test]
fn discovery_dials_every_announcement_once() {
    let mut r = DiscoveryReactor::new();
    assert!(r.on_discovered(10));
    assert_eq!(r.peers, vec![(10, PeerStatus::Dialing)]);
    r.on_dial_result(10, true);
    assert_eq!(r.peers, vec![(10, PeerStatus::Connected)]);
    // A repeat announcement of a connected peer still asks for one dial;
    // the transport deduplicates it and the record stays connected.
    assert!(r.on_discovered(10));
    assert_eq!(r.peers, vec![(10, PeerStatus::Connected)]);
}

#[test]
fn failed_dial_is_retried_on_the_next_announcement() {
    let mut r = DiscoveryReactor::new();
    assert!(r.on_discovered(10));
    r.on_dial_result(10, false);
    assert_eq!(r.peers, vec![(10, PeerStatus::DialFailed)]);
    assert!(r.on_discovered(10));
    assert_eq!(r.peers, vec![(10, PeerStatus::Dialing)]);
}

#[test]
fn connection_table_deduplicates_dials() {
    let mut t = ConnectionTable::new();
    t.dial_attempt(10, true);
    assert_eq!(t.connected, vec![10]);
    t.dial_attempt(10, true);
    assert_eq!(t.connected, vec![10]);
    t.dial_attempt(20, false);
    assert_eq!(t.connected, vec![10]);
    t.dial_attempt(20, true);
    assert_eq!(t.connected, vec![10, 20]);
    assert!(t.is_connected(10) && t.is_connected(20) && !t.is_connected(30));
}

#[test]
fn prober_waits_out_the_grace_period_then_pings() {
    let mut p = ProberState::new();
    assert_eq!(p.on_tick(), None);
    assert_eq!(p.on_tick(), Some(encode_request(&Request::Ping)));
    assert_eq!(p.on_tick(), Some(encode_request(&Request::Ping)));
}

#[test]
fn metadata_reflects_config_and_falls_back() {
    let m = provide(
        Some("alice".to_owned()),
        Some(OperatingSystem::Linux),
        Some("1.2.3".to_owned()),
    );
    assert_eq!(m.name, "alice");
    assert_eq!(m.operating_system, Some(OperatingSystem::Linux));
    assert_eq!(m.version, Some("1.2.3".to_owned()));
    let d = provide(None, None, None);
    assert_eq!(d.name, "unnamed peer");
    assert_eq!(d.operating_system, None);
    assert_eq!(d.version, None);
}

#[test]
fn errors_name_their_kind() {
    assert_eq!(Error::KeyNotFound.describe(), "requested key wasn't found in the key manager");
    assert_eq!(Error::NotUnlocked.describe(), "keymanager is not unlocked");
    assert_eq!(Error::Io("gone".to_owned()).describe(), "I/O error");
    assert_eq!(Error::KeyringError.describe(), "generic keyring error");
    assert_eq!(
        Error::KeyringNotSupported.describe(),
        "keyring not available on this platform"
    );
}

#[test]
fn errors_render_their_carried_message() {
    assert_eq!(Error::Io("gone".to_owned()).render(), "I/O error: gone");
    assert_eq!(
        Error::BincodeEncode("too deep".to_owned()).render(),
        "error while encoding with bincode: too deep"
    );
    assert_eq!(
        Error::BincodeDecode("bad tag".to_owned()).render(),
        "error while decoding with bincode: bad tag"
    );
    assert_eq!(
        Error::LinuxKeyringError("bus gone".to_owned()).render(),
        "error with the linux keyring: bus gone"
    );
    assert_eq!(
        Error::AppleKeyringError("denied".to_owned()).render(),
        "error with the apple keyring: denied"
    );
}

#[test]
fn errors_without_a_shown_payload_render_their_kind_alone() {
    assert_eq!(Error::Encrypt.render(), "error while encrypting");
    assert_eq!(Error::KeyringError.render(), "generic keyring error");
    // The string-parse kind carries the inner text but never shows it.
    assert_eq!(Error::StringParse("invalid utf-8".to_owned()).render(), "string parse error");
}

#[test]
fn response_kinds_are_distinct_on_the_wire() {
    // An empty library description still answers as a library, not as the
    // empty response, so the two response kinds never collide.
    let t = node_with_library(5, vec![]);
    let raw = encode_request(&Request::GetLibrary(5));
    let reply = handle(&raw, &t).expect("held library must be answered");
    assert_eq!(reply, vec![2]);
    match p2p_overlay::codec::decode_response(&reply) {
        Some(Response::Library(p)) => assert!(p.is_empty()),
        other => panic!("decoded {:?}", other),
    }
}
