//! The overlay state machine.
//!
//! `P2PManager` ties the discovery reactor, the liveness prober and the
//! node's libraries together.  The surrounding runtime owns the transport
//! and the timers; it feeds every transport event into `handle_event` and
//! performs the actions handed back.  All decisions are made here, none in
//! the runtime, so each concurrent task of the runtime is a plain loop.

use vstd::prelude::*;

use crate::codec::{spec_encode_request, spec_encode_response, spec_encode_operation,
    spec_decode_request, encode_operation};
use crate::discovery::{DiscoveryReactor, discovered_transition, dial_result_transition};
use crate::dispatch::{handle, receive_broadcast, spec_route, spec_broadcast_effect};
use crate::prober::ProberState;
use crate::proto::{Request, Operation};
use crate::target::SyncTarget;

verus! {

/// One transport or timer event, as the runtime hands it to the overlay.
#[derive(Debug)]
pub enum NetEvent {
    /// The transport announced a peer, known or not.
    PeerDiscovered(u128),
    /// The transport finished a dial attempt.
    DialResponded { peer: u128, success: bool },
    /// A peer opened a unicast stream and sent one request payload.
    UnicastRequest { peer: u128, data: Vec<u8> },
    /// One payload arrived on the broadcast channel.
    BroadcastReceived { peer: u128, data: Vec<u8> },
    /// The local data layer enqueued one operation for the overlay.
    OperationQueued(Operation),
    /// The liveness timer fired.
    ProbeTick,
}

/// One instruction handed back to the runtime.
#[derive(Debug)]
pub enum NetAction {
    /// Ask the transport to dial this peer; the transport deduplicates
    /// dials to peers already connected.
    Dial(u128),
    /// Fan this payload out to every currently connected peer.
    Broadcast(Vec<u8>),
    /// Answer the open unicast stream of this peer with this payload.
    Reply { peer: u128, data: Vec<u8> },
    /// Close or reset the offending stream of this peer.
    CloseStream { peer: u128 },
}

/// Mathematical model of a `NetAction`.
pub enum NetActionView {
    Dial(u128),
    Broadcast(Seq<u8>),
    Reply { peer: u128, data: Seq<u8> },
    CloseStream { peer: u128 },
}

impl View for NetAction {
    type V = NetActionView;

    open spec fn view(&self) -> NetActionView {
        match self {
            NetAction::Dial(id) => NetActionView::Dial(*id),
            NetAction::Broadcast(d) => NetActionView::Broadcast(d@),
            NetAction::Reply { peer, data } => NetActionView::Reply { peer: *peer, data: data@ },
            NetAction::CloseStream { peer } => NetActionView::CloseStream { peer: *peer },
        }
    }
}

/// How far the overlay has come in joining the network, as a percentage
/// shown to the application's frontend.
#[derive(Debug, Clone, Copy, PartialEq, Eq, Structural)]
pub struct PeerBootstrapProgress {
    /// Completed share of the bootstrap, 0 to 100.
    pub completed: u8,
}

impl PeerBootstrapProgress {
    /// A bootstrap that has not begun.
    pub fn new() -> (p: PeerBootstrapProgress)
        ensures
            p.completed == 0,
    {
        PeerBootstrapProgress { completed: 0 }
    }

    /// Record how far the bootstrap has come.
    pub fn set_completed(&mut self, pct: u8)
        requires
            pct <= 100,
        ensures
            final(self).completed == pct,
    {
        self.completed = pct;
    }

    /// Whether the bootstrap has finished.
    pub fn is_complete(&self) -> (r: bool)
        ensures
            r == (self.completed == 100),
    {
        self.completed == 100
    }
}

impl Default for PeerBootstrapProgress {
    fn default() -> (p: Self)
        ensures
            p.completed == 0,
    {
        PeerBootstrapProgress { completed: 0 }
    }
}

/// The overlay's whole mutable state.
pub struct P2PManager {
    /// The discovery reactor's record of announced peers.
    pub discovery: DiscoveryReactor,
    /// The liveness prober.
    pub prober: ProberState,
    /// The node's libraries, as the data layer registered them.
    pub target: SyncTarget,
}

impl P2PManager {
    /// Build the overlay state machine around the node's data layer.
    pub fn new(target: SyncTarget) -> (m: P2PManager)
        ensures
            m.target == target,
            m.discovery@.len() == 0,
            !m.prober.warmed_up,
    {
        P2PManager { discovery: DiscoveryReactor::new(), prober: ProberState::new(), target }
    }

    /// Advance the overlay by one event and say what the runtime must do
    /// next.  Every decision of the overlay is made here:
    /// - a discovery announcement asks for exactly one dial attempt;
    /// - a dial outcome only updates the reactor's record;
    /// - a unicast request is answered with exactly one response, or the
    ///   stream is closed when the payload is malformed;
    /// - an arriving broadcast applies a well-formed operation to the
    ///   libraries, ignores an advisory ping, and closes the stream on a
    ///   protocol error;
    /// - a locally queued operation is encoded and broadcast once;
    /// - a probe tick broadcasts one advisory ping after the startup grace
    ///   period.
    pub fn handle_event(&mut self, event: NetEvent) -> (actions: Vec<NetAction>)
        ensures
            (event matches NetEvent::PeerDiscovered(id) ==> {
                &&& actions@.len() == 1
                &&& actions@[0]@ == NetActionView::Dial(id)
                &&& discovered_transition(old(self).discovery@, final(self).discovery@, id)
                &&& final(self).target == old(self).target
                &&& final(self).prober == old(self).prober
            }),
            (event matches NetEvent::DialResponded { peer, success } ==> {
                &&& actions@.len() == 0
                &&& dial_result_transition(
                    old(self).discovery@,
                    final(self).discovery@,
                    peer,
                    success,
                )
                &&& final(self).target == old(self).target
                &&& final(self).prober == old(self).prober
            }),
            (event matches NetEvent::UnicastRequest { peer, data } ==> {
                &&& *final(self) == *old(self)
                &&& actions@.len() == 1
                &&& (spec_decode_request(data@) matches Some(req) ==> actions@[0]@
                    == (NetActionView::Reply {
                    peer,
                    data: spec_encode_response(spec_route(req, old(self).target@)),
                }))
                &&& (spec_decode_request(data@) is None ==> actions@[0]@
                    == (NetActionView::CloseStream { peer }))
            }),
            (event matches NetEvent::BroadcastReceived { peer, data } ==> {
                &&& final(self).discovery == old(self).discovery
                &&& final(self).prober == old(self).prober
                &&& (spec_broadcast_effect(data@, old(self).target@) matches Some(t2)
                    ==> final(self).target@ == t2 && actions@.len() == 0)
                &&& (spec_broadcast_effect(data@, old(self).target@) is None
                    ==> final(self).target@ == old(self).target@ && actions@.len() == 1
                        && actions@[0]@ == (NetActionView::CloseStream { peer }))
            }),
            (event matches NetEvent::OperationQueued(op) ==> {
                &&& *final(self) == *old(self)
                &&& actions@.len() == 1
                &&& actions@[0]@ == NetActionView::Broadcast(spec_encode_operation(op@))
            }),
            (event matches NetEvent::ProbeTick ==> {
                &&& final(self).discovery == old(self).discovery
                &&& final(self).target == old(self).target
                &&& final(self).prober.warmed_up
                &&& (old(self).prober.warmed_up ==> actions@.len() == 1 && actions@[0]@
                    == NetActionView::Broadcast(spec_encode_request(Request::Ping)))
                &&& (!old(self).prober.warmed_up ==> actions@.len() == 0)
            }),
    {
        let mut actions: Vec<NetAction> = Vec::new();
        match event {
            NetEvent::PeerDiscovered(id) => {
                let dial = self.discovery.on_discovered(id);
                if dial {
                    actions.push(NetAction::Dial(id));
                }
            },
            NetEvent::DialResponded { peer, success } => {
                self.discovery.on_dial_result(peer, success);
            },
            NetEvent::UnicastRequest { peer, data } => {
                match handle(data.as_slice(), &self.target) {
                    Ok(reply) => {
                        actions.push(NetAction::Reply { peer, data: reply });
                    },
                    Err(_) => {
                        actions.push(NetAction::CloseStream { peer });
                    },
                }
            },
            NetEvent::BroadcastReceived { peer, data } => {
                match receive_broadcast(data.as_slice(), &mut self.target) {
                    Ok(_) => {},
                    Err(_) => {
                        actions.push(NetAction::CloseStream { peer });
                    },
                }
            },
            NetEvent::OperationQueued(op) => {
                actions.push(NetAction::Broadcast(encode_operation(&op)));
            },
            NetEvent::ProbeTick => {
                match self.prober.on_tick() {
                    Some(ping) => {
                        actions.push(NetAction::Broadcast(ping));
                    },
                    None => {},
                }
            },
        }
        actions
    }
}

} // verus!
