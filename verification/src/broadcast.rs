//! Sync broadcaster: fan locally produced operations out to the overlay.
//!
//! The broadcaster drains an ordered queue of operations.  Each operation is
//! encoded once and planned as one independent transmission per connected
//! peer; the transport performs the transmissions, and a failure towards one
//! peer is invisible to every other planned transmission.

use vstd::prelude::*;

use crate::codec::{spec_encode_operation, encode_operation};
use crate::proto::{Operation, OperationView, copy_bytes};

verus! {

/// One planned transmission of one payload to one peer.
#[derive(Debug)]
pub struct Delivery {
    pub peer: u128,
    pub payload: Vec<u8>,
}

/// Mathematical model of a `Delivery`.
pub struct DeliveryView {
    pub peer: u128,
    pub payload: Seq<u8>,
}

impl View for Delivery {
    type V = DeliveryView;

    open spec fn view(&self) -> DeliveryView {
        DeliveryView { peer: self.peer, payload: self.payload@ }
    }
}

/// The transmissions that fan one operation out: exactly one per connected
/// peer, each carrying the same encoded operation.
pub open spec fn spec_fan_out(op: OperationView, peers: Seq<u128>) -> Seq<DeliveryView> {
    Seq::new(
        peers.len(),
        |j: int| DeliveryView { peer: peers[j], payload: spec_encode_operation(op) },
    )
}

/// Plan the fan-out of one operation to the connected peers.
pub fn fan_out(op: &Operation, peers: &Vec<u128>) -> (plan: Vec<Delivery>)
    ensures
        plan@.len() == peers@.len(),
        forall|j: int| 0 <= j < plan@.len() ==> plan@[j]@ == spec_fan_out(op@, peers@)[j],
{
    let payload = encode_operation(op);
    let mut plan: Vec<Delivery> = Vec::new();
    let mut j: usize = 0;
    while j < peers.len()
        invariant
            j <= peers.len(),
            payload@ == spec_encode_operation(op@),
            plan@.len() == j,
            forall|k: int| 0 <= k < j ==> plan@[k]@ == spec_fan_out(op@, peers@)[k],
        decreases peers.len() - j,
    {
        plan.push(Delivery { peer: peers[j], payload: copy_bytes(&payload) });
        j = j + 1;
    }
    plan
}

/// Law: broadcasting one operation to N connected peers plans exactly one
/// transmission per peer, each carrying the encoded operation.
pub proof fn lemma_fan_out_per_peer(op: OperationView, peers: Seq<u128>, j: int)
    requires
        0 <= j < peers.len(),
    ensures
        spec_fan_out(op, peers).len() == peers.len(),
        spec_fan_out(op, peers)[j] == (DeliveryView {
            peer: peers[j],
            payload: spec_encode_operation(op),
        }),
{
}

/// Law: what is planned towards one peer depends on that peer alone, so a
/// failure towards one peer cannot change what any other peer is sent.
pub proof fn lemma_fan_out_independent(
    op: OperationView,
    peers1: Seq<u128>,
    peers2: Seq<u128>,
    j: int,
)
    requires
        0 <= j < peers1.len(),
        0 <= j < peers2.len(),
        peers1[j] == peers2[j],
    ensures
        spec_fan_out(op, peers1)[j] == spec_fan_out(op, peers2)[j],
{
}

/// The broadcast payloads for a queue of operations, one per operation, in
/// the order the producer enqueued them.
pub open spec fn spec_drain(ops: Seq<OperationView>) -> Seq<Seq<u8>> {
    Seq::new(ops.len(), |i: int| spec_encode_operation(ops[i]))
}

/// Drain one queue of locally produced operations into broadcast payloads,
/// preserving the producer's order.
pub fn drain_queue(ops: &Vec<Operation>) -> (payloads: Vec<Vec<u8>>)
    ensures
        payloads@.len() == ops@.len(),
        forall|i: int| 0 <= i < ops@.len() ==> payloads@[i]@ == spec_encode_operation(ops@[i]@),
{
    let mut payloads: Vec<Vec<u8>> = Vec::new();
    let mut i: usize = 0;
    while i < ops.len()
        invariant
            i <= ops.len(),
            payloads@.len() == i,
            forall|k: int| 0 <= k < i ==> payloads@[k]@ == spec_encode_operation(ops@[k]@),
        decreases ops.len() - i,
    {
        payloads.push(encode_operation(&ops[i]));
        i = i + 1;
    }
    payloads
}

/// Law: operations enqueued in some order by one producer are broadcast in
/// that same order: the payload drained at each position is the encoding of
/// the operation enqueued at that position.
pub proof fn lemma_drain_preserves_order(ops: Seq<OperationView>, i: int, j: int)
    requires
        0 <= i < j < ops.len(),
    ensures
        spec_drain(ops).len() == ops.len(),
        spec_drain(ops)[i] == spec_encode_operation(ops[i]),
        spec_drain(ops)[j] == spec_encode_operation(ops[j]),
{
}

} // verus!
