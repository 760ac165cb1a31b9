//! Wire codec: the self-describing binary envelope.
//!
//! Every transport message carries exactly one `Request`, `Response` or
//! `Operation`.  The first byte names the kind; identifiers travel as 16-byte
//! little-endian integers, the logical clock as 8 bytes, and the one
//! variable-length field of a message comes last, so the transport's own
//! per-message boundary is the only framing needed.  The empty message is the
//! explicit encoding of `Response::Empty`, so a peer can tell "answered with
//! nothing" from "not answered".

use vstd::prelude::*;
use vstd::bytes::*;
use vstd::slice::{slice_subrange, slice_to_vec};

use crate::proto::{Request, Response, ResponseView, Operation, OperationView, Envelope,
    EnvelopeView};

verus! {

/// First byte of every encoded `Request`.
pub const TAG_REQUEST: u8 = 1;

/// First byte of every encoded non-empty `Response`.
pub const TAG_RESPONSE: u8 = 2;

/// First byte of every encoded `Operation`.
pub const TAG_OPERATION: u8 = 3;

/// Second byte of an encoded `Request::Ping`.
pub const KIND_PING: u8 = 0;

/// Second byte of an encoded `Request::GetLibrary`.
pub const KIND_GET_LIBRARY: u8 = 1;

/// The bytes that stand for a request on the wire.
pub open spec fn spec_encode_request(r: Request) -> Seq<u8> {
    match r {
        Request::Ping => seq![TAG_REQUEST, KIND_PING],
        Request::GetLibrary(id) => seq![TAG_REQUEST, KIND_GET_LIBRARY]
            + spec_u128_to_le_bytes(id),
    }
}

/// The request a byte string stands for, if any.
pub open spec fn spec_decode_request(b: Seq<u8>) -> Option<Request> {
    if b.len() == 2 && b[0] == TAG_REQUEST && b[1] == KIND_PING {
        Some(Request::Ping)
    } else if b.len() == 18 && b[0] == TAG_REQUEST && b[1] == KIND_GET_LIBRARY {
        Some(Request::GetLibrary(spec_u128_from_le_bytes(b.subrange(2, 18))))
    } else {
        None
    }
}

/// The bytes that stand for a response on the wire.  `Empty` is the empty
/// byte string.
pub open spec fn spec_encode_response(r: ResponseView) -> Seq<u8> {
    match r {
        ResponseView::Empty => Seq::<u8>::empty(),
        ResponseView::Library(p) => seq![TAG_RESPONSE] + p,
    }
}

/// The response a byte string stands for, if any.
pub open spec fn spec_decode_response(b: Seq<u8>) -> Option<ResponseView> {
    if b.len() == 0 {
        Some(ResponseView::Empty)
    } else if b[0] == TAG_RESPONSE {
        Some(ResponseView::Library(b.subrange(1, b.len() as int)))
    } else {
        None
    }
}

/// The bytes that stand for an operation on the wire: tag, library id,
/// actor id, logical clock, then the payload to the end of the message.
pub open spec fn spec_encode_operation(o: OperationView) -> Seq<u8> {
    seq![TAG_OPERATION] + spec_u128_to_le_bytes(o.library) + spec_u128_to_le_bytes(o.actor)
        + spec_u64_to_le_bytes(o.clock) + o.payload
}

/// The operation a byte string stands for, if any.
pub open spec fn spec_decode_operation(b: Seq<u8>) -> Option<OperationView> {
    if b.len() >= 41 && b[0] == TAG_OPERATION {
        Some(OperationView {
            library: spec_u128_from_le_bytes(b.subrange(1, 17)),
            actor: spec_u128_from_le_bytes(b.subrange(17, 33)),
            clock: spec_u64_from_le_bytes(b.subrange(33, 41)),
            payload: b.subrange(41, b.len() as int),
        })
    } else {
        None
    }
}

/// The bytes that stand for exactly one protocol value.
pub open spec fn spec_encode_envelope(e: EnvelopeView) -> Seq<u8> {
    match e {
        EnvelopeView::Request(r) => spec_encode_request(r),
        EnvelopeView::Response(r) => spec_encode_response(r),
        EnvelopeView::Operation(o) => spec_encode_operation(o),
    }
}

/// The protocol value a transport message stands for, if any.
pub open spec fn spec_decode_envelope(b: Seq<u8>) -> Option<EnvelopeView> {
    if b.len() == 0 {
        Some(EnvelopeView::Response(ResponseView::Empty))
    } else if b[0] == TAG_REQUEST {
        match spec_decode_request(b) {
            Some(r) => Some(EnvelopeView::Request(r)),
            None => None,
        }
    } else if b[0] == TAG_RESPONSE {
        match spec_decode_response(b) {
            Some(r) => Some(EnvelopeView::Response(r)),
            None => None,
        }
    } else if b[0] == TAG_OPERATION {
        match spec_decode_operation(b) {
            Some(o) => Some(EnvelopeView::Operation(o)),
            None => None,
        }
    } else {
        None
    }
}

/// Decoding inverts encoding for every request.
pub proof fn lemma_request_round_trip(r: Request)
    ensures
        spec_decode_request(spec_encode_request(r)) == Some(r),
{
    lemma_auto_spec_u128_to_from_le_bytes();
    match r {
        Request::Ping => {},
        Request::GetLibrary(id) => {
            let s = spec_encode_request(r);
            assert(s.subrange(2, 18) =~= spec_u128_to_le_bytes(id));
        },
    }
}

/// Decoding inverts encoding for every response.
pub proof fn lemma_response_round_trip(r: ResponseView)
    ensures
        spec_decode_response(spec_encode_response(r)) == Some(r),
{
    match r {
        ResponseView::Empty => {},
        ResponseView::Library(p) => {
            let s = spec_encode_response(r);
            assert(s.subrange(1, s.len() as int) =~= p);
        },
    }
}

/// Decoding inverts encoding for every operation.
pub proof fn lemma_operation_round_trip(o: OperationView)
    ensures
        spec_decode_operation(spec_encode_operation(o)) == Some(o),
{
    lemma_auto_spec_u128_to_from_le_bytes();
    lemma_auto_spec_u64_to_from_le_bytes();
    let s = spec_encode_operation(o);
    assert(s.subrange(1, 17) =~= spec_u128_to_le_bytes(o.library));
    assert(s.subrange(17, 33) =~= spec_u128_to_le_bytes(o.actor));
    assert(s.subrange(33, 41) =~= spec_u64_to_le_bytes(o.clock));
    assert(s.subrange(41, s.len() as int) =~= o.payload);
}

/// Decoding inverts encoding for every protocol value: the envelope is
/// self-describing and lossless.
pub proof fn lemma_envelope_round_trip(e: EnvelopeView)
    ensures
        spec_decode_envelope(spec_encode_envelope(e)) == Some(e),
{
    lemma_auto_spec_u128_to_from_le_bytes();
    match e {
        EnvelopeView::Request(r) => {
            lemma_request_round_trip(r);
        },
        EnvelopeView::Response(r) => {
            lemma_response_round_trip(r);
        },
        EnvelopeView::Operation(o) => {
            lemma_operation_round_trip(o);
        },
    }
}

/// Encode one request.
pub fn encode_request(r: &Request) -> (out: Vec<u8>)
    ensures
        out@ == spec_encode_request(*r),
{
    match r {
        Request::Ping => {
            let mut v: Vec<u8> = Vec::new();
            v.push(TAG_REQUEST);
            v.push(KIND_PING);
            proof {
                assert(v@ =~= spec_encode_request(*r));
            }
            v
        },
        Request::GetLibrary(id) => {
            let mut v: Vec<u8> = Vec::new();
            v.push(TAG_REQUEST);
            v.push(KIND_GET_LIBRARY);
            let mut idb = u128_to_le_bytes(*id);
            v.append(&mut idb);
            proof {
                assert(v@ =~= spec_encode_request(*r));
            }
            v
        },
    }
}

/// Decode one request; `None` is a malformed or unknown message.
pub fn decode_request(b: &[u8]) -> (r: Option<Request>)
    ensures
        r == spec_decode_request(b@),
{
    if b.len() == 2 {
        if b[0] == TAG_REQUEST && b[1] == KIND_PING {
            Some(Request::Ping)
        } else {
            None
        }
    } else if b.len() == 18 {
        if b[0] == TAG_REQUEST && b[1] == KIND_GET_LIBRARY {
            let id = u128_from_le_bytes(slice_subrange(b, 2, 18));
            Some(Request::GetLibrary(id))
        } else {
            None
        }
    } else {
        None
    }
}

/// Encode one response.  `Empty` becomes the explicit zero-length message.
pub fn encode_response(r: &Response) -> (out: Vec<u8>)
    ensures
        out@ == spec_encode_response(r@),
{
    match r {
        Response::Empty => {
            let v: Vec<u8> = Vec::new();
            proof {
                assert(v@ =~= spec_encode_response(r@));
            }
            v
        },
        Response::Library(p) => {
            let mut v: Vec<u8> = Vec::new();
            v.push(TAG_RESPONSE);
            let mut body = slice_to_vec(p.as_slice());
            v.append(&mut body);
            proof {
                assert(v@ =~= spec_encode_response(r@));
            }
            v
        },
    }
}

/// Decode one response; `None` is a malformed message.
pub fn decode_response(b: &[u8]) -> (r: Option<Response>)
    ensures
        r is Some ==> spec_decode_response(b@) == Some(r->0@),
        r is None ==> spec_decode_response(b@) is None,
{
    if b.len() == 0 {
        Some(Response::Empty)
    } else if b[0] == TAG_RESPONSE {
        let p = slice_to_vec(slice_subrange(b, 1, b.len()));
        Some(Response::Library(p))
    } else {
        None
    }
}

/// Encode one operation.
pub fn encode_operation(o: &Operation) -> (out: Vec<u8>)
    ensures
        out@ == spec_encode_operation(o@),
{
    let mut v: Vec<u8> = Vec::new();
    v.push(TAG_OPERATION);
    let mut lib = u128_to_le_bytes(o.library);
    v.append(&mut lib);
    let mut actor = u128_to_le_bytes(o.actor);
    v.append(&mut actor);
    let mut clock = u64_to_le_bytes(o.clock);
    v.append(&mut clock);
    let mut payload = slice_to_vec(o.payload.as_slice());
    v.append(&mut payload);
    proof {
        assert(v@ =~= spec_encode_operation(o@));
    }
    v
}

/// Decode one operation; `None` is a malformed message.
pub fn decode_operation(b: &[u8]) -> (r: Option<Operation>)
    ensures
        r is Some ==> spec_decode_operation(b@) == Some(r->0@),
        r is None ==> spec_decode_operation(b@) is None,
{
    if b.len() >= 41 && b[0] == TAG_OPERATION {
        let library = u128_from_le_bytes(slice_subrange(b, 1, 17));
        let actor = u128_from_le_bytes(slice_subrange(b, 17, 33));
        let clock = u64_from_le_bytes(slice_subrange(b, 33, 41));
        let payload = slice_to_vec(slice_subrange(b, 41, b.len()));
        Some(Operation { library, actor, clock, payload })
    } else {
        None
    }
}

/// Encode one protocol value as one transport message.
pub fn encode_envelope(e: &Envelope) -> (out: Vec<u8>)
    ensures
        out@ == spec_encode_envelope(e@),
{
    match e {
        Envelope::Request(r) => encode_request(r),
        Envelope::Response(r) => encode_response(r),
        Envelope::Operation(o) => encode_operation(o),
    }
}

/// Decode one transport message; `None` is a malformed message.
pub fn decode_envelope(b: &[u8]) -> (r: Option<Envelope>)
    ensures
        r is Some ==> spec_decode_envelope(b@) == Some(r->0@),
        r is None ==> spec_decode_envelope(b@) is None,
{
    if b.len() == 0 {
        Some(Envelope::Response(Response::Empty))
    } else if b[0] == TAG_REQUEST {
        match decode_request(b) {
            Some(r) => Some(Envelope::Request(r)),
            None => None,
        }
    } else if b[0] == TAG_RESPONSE {
        match decode_response(b) {
            Some(r) => Some(Envelope::Response(r)),
            None => None,
        }
    } else if b[0] == TAG_OPERATION {
        match decode_operation(b) {
            Some(o) => Some(Envelope::Operation(o)),
            None => None,
        }
    } else {
        None
    }
}

} // verus!
