//! Request dispatcher: decode one inbound payload, answer it, encode the
//! answer.
//!
//! A unicast payload must be a `Request`; the answer is exactly one
//! `Response`, and the advisory `Ping` always answers with the explicit
//! empty response.  A broadcast payload must be an `Operation` (applied to
//! the node's libraries) or an advisory `Ping` (ignored); everything else is
//! a protocol error and the offending stream is closed.

use vstd::prelude::*;

use crate::codec::{spec_decode_request, spec_encode_response, spec_decode_envelope,
    spec_encode_operation, decode_request, encode_response, decode_envelope,
    lemma_operation_round_trip};
use crate::proto::{Request, Response, ResponseView, Envelope, EnvelopeView, OperationView};
use crate::target::{SyncTarget, LibraryStateView, spec_find_library, spec_apply,
    lemma_apply_records};

verus! {

/// Why an inbound payload could not be dispatched.
#[derive(Clone, Copy, PartialEq, Eq, Structural, Debug)]
pub enum ProtocolError {
    /// The payload is not the encoding of any protocol value the receiving
    /// stream accepts; the stream must be closed or reset, never silently
    /// dropped.
    Malformed,
}

/// The response a node owes for one decoded request: a ping is answered
/// with the empty response; a library query is answered with the library's
/// description when the node holds it, and with the empty response when it
/// does not.
pub open spec fn spec_route(req: Request, t: Seq<LibraryStateView>) -> ResponseView {
    match req {
        Request::Ping => ResponseView::Empty,
        Request::GetLibrary(id) => match spec_find_library(t, id) {
            Some(lib) => ResponseView::Library(lib.info),
            None => ResponseView::Empty,
        },
    }
}

impl SyncTarget {
    /// Answer one decoded request against this node's libraries.
    pub fn route(&self, req: &Request) -> (resp: Response)
        ensures
            resp@ == spec_route(*req, self@),
    {
        match req {
            Request::Ping => Response::Empty,
            Request::GetLibrary(id) => match self.find_library(*id) {
                Some(idx) => Response::Library(self.libraries[idx].info_copy()),
                None => Response::Empty,
            },
        }
    }
}

/// Dispatch one inbound unicast payload: decode it, route it, and encode
/// the one response owed for it.  A decode failure is reported to the
/// caller, which closes the stream.
pub fn handle(raw: &[u8], target: &SyncTarget) -> (r: Result<Vec<u8>, ProtocolError>)
    ensures
        spec_decode_request(raw@) matches Some(req) ==> r matches Ok(out) && out@
            == spec_encode_response(spec_route(req, target@)),
        spec_decode_request(raw@) is None ==> r == Err::<Vec<u8>, ProtocolError>(
            ProtocolError::Malformed,
        ),
{
    match decode_request(raw) {
        Some(req) => {
            let resp = target.route(&req);
            Ok(encode_response(&resp))
        },
        None => Err(ProtocolError::Malformed),
    }
}

/// Law: every successfully decoded request is answered with exactly one
/// response, and a ping is always answered with the explicit empty payload.
pub proof fn lemma_ping_answered_empty(t: Seq<LibraryStateView>)
    ensures
        spec_route(Request::Ping, t) == ResponseView::Empty,
        spec_encode_response(spec_route(Request::Ping, t)) == Seq::<u8>::empty(),
{
}

/// What one arriving broadcast payload leaves of the node's libraries: an
/// operation is applied, an advisory ping changes nothing, and anything
/// else is a protocol error.
pub open spec fn spec_broadcast_effect(b: Seq<u8>, t: Seq<LibraryStateView>) -> Option<
    Seq<LibraryStateView>,
> {
    match spec_decode_envelope(b) {
        Some(EnvelopeView::Operation(op)) => Some(spec_apply(t, op)),
        Some(EnvelopeView::Request(Request::Ping)) => Some(t),
        _ => None,
    }
}

/// Law: the payload the overlay broadcasts for one queued operation is
/// decoded and applied by every receiving peer, and every library of the
/// operation's dataset then records it — so one broadcast suffices for
/// every member to converge.
pub proof fn lemma_broadcast_reaches_members(op: OperationView, t: Seq<LibraryStateView>, i: int)
    requires
        0 <= i < t.len(),
    ensures
        spec_broadcast_effect(spec_encode_operation(op), t) == Some(spec_apply(t, op)),
        t[i].id == op.library ==> spec_apply(t, op)[i].applied.contains(op),
        t[i].id != op.library ==> spec_apply(t, op)[i] == t[i],
{
    lemma_operation_round_trip(op);
    lemma_apply_records(t, op, i);
}

/// Take one arriving broadcast payload: apply a well-formed operation to
/// the node's libraries, ignore an advisory ping, and report everything
/// else as a protocol error, leaving the libraries unchanged.
pub fn receive_broadcast(raw: &[u8], target: &mut SyncTarget) -> (r: Result<(), ProtocolError>)
    ensures
        spec_broadcast_effect(raw@, old(target)@) matches Some(t2) ==> r is Ok && final(target)@
            == t2,
        spec_broadcast_effect(raw@, old(target)@) is None ==> r == Err::<(), ProtocolError>(
            ProtocolError::Malformed,
        ) && final(target)@ == old(target)@,
{
    match decode_envelope(raw) {
        Some(Envelope::Operation(op)) => {
            target.apply(&op);
            Ok(())
        },
        Some(Envelope::Request(req)) => {
            match req {
                Request::Ping => Ok(()),
                Request::GetLibrary(_) => Err(ProtocolError::Malformed),
            }
        },
        Some(Envelope::Response(_)) => Err(ProtocolError::Malformed),
        None => Err(ProtocolError::Malformed),
    }
}

} // verus!
