//! Round-trip and framing tests for the wire codec.

use p2p_overlay::codec::{decode_envelope, decode_operation, decode_request, decode_response,
    encode_envelope, encode_operation, encode_request, encode_response};
use p2p_overlay::proto::{Envelope, Operation, Request, Response};

fn sample_operation() -> Operation {
    Operation { library: 1, actor: 77, clock: 9, payload: vec![10, 20, 30] }
}

#[test]
fn request_ping_round_trip() {
    let bytes = encode_request(&Request::Ping);
    assert_eq!(bytes, vec![1, 0]);
    assert_eq!(decode_request(&bytes), Some(Request::Ping));
}

#[test]
fn request_get_library_round_trip() {
    let req = Request::GetLibrary(0xDEAD_BEEF_0123_4567_89AB_CDEF_0011_2233);
    let bytes = encode_request(&req);
    assert_eq!(bytes.len(), 18);
    assert_eq!(decode_request(&bytes), Some(req));
}

#[test]
fn request_largest_identifier_round_trip() {
    let req = Request::GetLibrary(u128::MAX);
    let bytes = encode_request(&req);
    assert_eq!(decode_request(&bytes), Some(req));
}

#[test]
fn response_empty_is_zero_length() {
    let bytes = encode_response(&Response::Empty);
    assert!(bytes.is_empty());
    assert!(matches!(decode_response(&bytes), Some(Response::Empty)));
}

#[test]
fn response_library_round_trip() {
    let bytes = encode_response(&Response::Library(vec![5, 6, 7]));
    match decode_response(&bytes) {
        Some(Response::Library(p)) => assert_eq!(p, vec![5, 6, 7]),
        other => panic!("decoded {:?}", other),
    }
}

#[test]
fn operation_round_trip() {
    let op = sample_operation();
    let bytes = encode_operation(&op);
    assert_eq!(bytes.len(), 41 + 3);
    let back = decode_operation(&bytes).expect("well-formed operation");
    assert!(back.same_as(&op));
}

#[test]
fn operation_empty_payload_round_trip() {
    let op = Operation { library: 0, actor: 0, clock: 0, payload: vec![] };
    let bytes = encode_operation(&op);
    assert_eq!(bytes.len(), 41);
    let back = decode_operation(&bytes).expect("well-formed operation");
    assert!(back.same_as(&op));
}

#[test]
fn operation_extreme_values_round_trip() {
    let op = Operation { library: u128::MAX, actor: u128::MAX, clock: u64::MAX, payload: vec![255] };
    let back = decode_operation(&encode_operation(&op)).expect("well-formed operation");
    assert!(back.same_as(&op));
}

#[test]
fn envelope_round_trip_every_kind() {
    let cases = vec![
        Envelope::Request(Request::Ping),
        Envelope::Request(Request::GetLibrary(42)),
        Envelope::Response(Response::Empty),
        Envelope::Response(Response::Library(vec![9])),
        Envelope::Operation(sample_operation()),
    ];
    for e in cases {
        let bytes = encode_envelope(&e);
        let back = decode_envelope(&bytes).expect("well-formed envelope");
        match (&e, &back) {
            (Envelope::Request(a), Envelope::Request(b)) => assert_eq!(a, b),
            (Envelope::Response(Response::Empty), Envelope::Response(Response::Empty)) => {}
            (
                Envelope::Response(Response::Library(a)),
                Envelope::Response(Response::Library(b)),
            ) => assert_eq!(a, b),
            (Envelope::Operation(a), Envelope::Operation(b)) => assert!(a.same_as(b)),
            _ => panic!("envelope kind changed over the round trip"),
        }
    }
}

#[test]
fn malformed_payloads_are_rejected() {
    assert_eq!(decode_request(&[]), None);
    assert_eq!(decode_request(&[1]), None);
    assert_eq!(decode_request(&[9, 0]), None);
    assert_eq!(decode_request(&[1, 7]), None);
    assert!(decode_response(&[9, 9]).is_none());
    assert!(decode_operation(&[3, 1, 2]).is_none());
    assert!(decode_operation(&[4; 60]).is_none());
    assert!(decode_envelope(&[200, 1, 2]).is_none());
}

#[test]
fn empty_message_is_the_empty_response() {
    match decode_envelope(&[]) {
        Some(Envelope::Response(Response::Empty)) => {}
        other => panic!("decoded {:?}", other),
    }
}
