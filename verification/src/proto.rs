//! Protocol values exchanged between peers.
//!
//! Peer, library and actor identifiers are carried as 128-bit integers; the
//! surrounding application converts its own identifier types (UUIDs, transport
//! peer ids) to and from these plain values at the edge.

use vstd::prelude::*;

verus! {

/// A query sent from one peer to another over a unicast stream.
#[derive(Clone, Copy, PartialEq, Eq, Structural, Debug)]
pub enum Request {
    /// Advisory liveness probe; the receiver answers with the empty response.
    Ping,
    /// Ask the remote peer to describe the library with this identifier.
    GetLibrary(u128),
}

/// The answer a peer produces for exactly one `Request`.
#[derive(Debug)]
pub enum Response {
    /// The explicit "answered with nothing" terminal response.
    Empty,
    /// An opaque description of one library held by the answering peer.
    Library(Vec<u8>),
}

/// Mathematical model of a `Response`.
pub enum ResponseView {
    Empty,
    Library(Seq<u8>),
}

impl View for Response {
    type V = ResponseView;

    open spec fn view(&self) -> ResponseView {
        match self {
            Response::Empty => ResponseView::Empty,
            Response::Library(p) => ResponseView::Library(p@),
        }
    }
}

/// A causally ordered change record produced by one actor against one
/// library.  An operation is immutable once created; re-delivering it to a
/// peer must not change that peer's state a second time.
#[derive(Debug)]
pub struct Operation {
    /// The dataset the change belongs to.
    pub library: u128,
    /// The node that produced the change.
    pub actor: u128,
    /// The producer's logical clock when the change was made.
    pub clock: u64,
    /// The opaque change record itself, owned by the data layer.
    pub payload: Vec<u8>,
}

/// Mathematical model of an `Operation`.
pub struct OperationView {
    pub library: u128,
    pub actor: u128,
    pub clock: u64,
    pub payload: Seq<u8>,
}

impl View for Operation {
    type V = OperationView;

    open spec fn view(&self) -> OperationView {
        OperationView {
            library: self.library,
            actor: self.actor,
            clock: self.clock,
            payload: self.payload@,
        }
    }
}

impl Operation {
    /// An independent copy that models to the same value.
    pub fn duplicate(&self) -> (r: Operation)
        ensures
            r@ == self@,
    {
        Operation {
            library: self.library,
            actor: self.actor,
            clock: self.clock,
            payload: copy_bytes(&self.payload),
        }
    }
}

/// Exactly one protocol value, as carried by one transport message.
#[derive(Debug)]
pub enum Envelope {
    Request(Request),
    Response(Response),
    Operation(Operation),
}

/// Mathematical model of an `Envelope`.
pub enum EnvelopeView {
    Request(Request),
    Response(ResponseView),
    Operation(OperationView),
}

impl View for Envelope {
    type V = EnvelopeView;

    open spec fn view(&self) -> EnvelopeView {
        match self {
            Envelope::Request(r) => EnvelopeView::Request(*r),
            Envelope::Response(r) => EnvelopeView::Response(r@),
            Envelope::Operation(o) => EnvelopeView::Operation(o@),
        }
    }
}

/// An independent copy of a byte string.
pub fn copy_bytes(b: &Vec<u8>) -> (r: Vec<u8>)
    ensures
        r@ == b@,
{
    let mut r: Vec<u8> = Vec::new();
    let mut i: usize = 0;
    while i < b.len()
        invariant
            i <= b.len(),
            r@ == b@.subrange(0, i as int),
        decreases b.len() - i,
    {
        r.push(b[i]);
        i = i + 1;
        proof {
            assert(r@ =~= b@.subrange(0, i as int));
        }
    }
    proof {
        assert(r@ =~= b@);
    }
    r
}

/// Whether two byte strings hold the same bytes.
pub fn bytes_eq(a: &Vec<u8>, b: &Vec<u8>) -> (r: bool)
    ensures
        r == (a@ == b@),
{
    if a.len() != b.len() {
        return false;
    }
    let mut i: usize = 0;
    while i < a.len()
        invariant
            i <= a.len(),
            a@.len() == b@.len(),
            forall|j: int| 0 <= j < i ==> a@[j] == b@[j],
        decreases a.len() - i,
    {
        if a[i] != b[i] {
            return false;
        }
        i = i + 1;
    }
    proof {
        assert(a@ =~= b@);
    }
    true
}

impl Operation {
    /// Whether two operations model to the same value.
    pub fn same_as(&self, other: &Operation) -> (r: bool)
        ensures
            r == (self@ == other@),
    {
        let r = self.library == other.library && self.actor == other.actor
            && self.clock == other.clock && bytes_eq(&self.payload, &other.payload);
        proof {
            if r {
                assert(self@ == other@);
            }
        }
        r
    }
}

} // verus!
