//! The fixed-size wire frames of the feature-report protocol.
//!
//! A request is always exactly 8 bytes: a constant 3-byte header, the opcode,
//! and the command's payload zero-padded into the remaining 4 bytes. A
//! response is always exactly 256 bytes: a 4-byte header echoing the opcode,
//! a declared payload length, and the payload itself.

use vstd::prelude::*;

use crate::error::ProtoError;

verus! {

/// Total size of a request frame, header and payload together.
pub const FEATURE_REPORT_REQUEST_SIZE: usize = 8;

/// Total size of a response frame as read from the device.
pub const RESPONSE_SIZE: usize = 256;

/// Bytes of a request frame left for the command's payload.
pub const REQUEST_PAYLOAD_CAPACITY: usize = 4;

/// Bytes of a response frame left for the payload after the 5 header bytes.
pub const RESPONSE_PAYLOAD_CAPACITY: usize = 251;

/// The request frame carrying `payload` for `opcode`: the constant header
/// `[0x00, 0xD0, 0xDA]`, the opcode, then the payload zero-padded to 8 bytes.
pub open spec fn request_frame_spec(opcode: u8, payload: Seq<u8>) -> Seq<u8>
    recommends
        payload.len() <= REQUEST_PAYLOAD_CAPACITY,
{
    seq![0u8, 0xD0u8, 0xDAu8, opcode] + payload
        + Seq::new((REQUEST_PAYLOAD_CAPACITY - payload.len()) as nat, |i: int| 0u8)
}

/// Encodes the 8-byte request frame for `opcode` with the given payload.
///
/// Fails, and writes nothing, when the payload does not fit in the 4 payload
/// bytes; it is never silently truncated.
pub fn encode_request_frame(opcode: u8, payload: &Vec<u8>) -> (r: Result<Vec<u8>, ProtoError>)
    ensures
        payload@.len() <= REQUEST_PAYLOAD_CAPACITY ==> (r matches Ok(frame)
            && frame@ == request_frame_spec(opcode, payload@)
            && frame@.len() == FEATURE_REPORT_REQUEST_SIZE),
        payload@.len() > REQUEST_PAYLOAD_CAPACITY ==> r === Err(ProtoError::PayloadTooLong),
{
    if payload.len() > REQUEST_PAYLOAD_CAPACITY {
        return Err(ProtoError::PayloadTooLong);
    }
    let mut frame: Vec<u8> = Vec::new();
    frame.push(0);
    frame.push(0xD0);
    frame.push(0xDA);
    frame.push(opcode);
    let mut i: usize = 0;
    while i < payload.len()
        invariant
            i <= payload@.len() <= REQUEST_PAYLOAD_CAPACITY,
            frame@ == seq![0u8, 0xD0u8, 0xDAu8, opcode] + payload@.take(i as int),
        decreases payload@.len() - i,
    {
        frame.push(payload[i]);
        proof {
            assert(payload@.take(i + 1) =~= payload@.take(i as int).push(payload@[i as int]));
        }
        i += 1;
    }
    proof {
        assert(payload@.take(payload@.len() as int) =~= payload@);
    }
    while frame.len() < FEATURE_REPORT_REQUEST_SIZE
        invariant
            payload@.len() + 4 <= frame@.len() <= FEATURE_REPORT_REQUEST_SIZE,
            frame@ == seq![0u8, 0xD0u8, 0xDAu8, opcode] + payload@
                + Seq::new((frame@.len() - payload@.len() - 4) as nat, |j: int| 0u8),
        decreases FEATURE_REPORT_REQUEST_SIZE - frame@.len(),
    {
        frame.push(0);
        proof {
            assert(frame@ =~= seq![0u8, 0xD0u8, 0xDAu8, opcode] + payload@
                + Seq::new((frame@.len() - payload@.len() - 4) as nat, |j: int| 0u8));
        }
    }
    Ok(frame)
}

/// True when the first four response bytes are what the protocol demands:
/// the constant acknowledgment bytes and the echo of the request's opcode.
pub open spec fn response_header_ok(buf: Seq<u8>, opcode: u8) -> bool {
    &&& buf[0] == 0xD0u8
    &&& buf[1] == 0xDAu8
    &&& buf[2] == opcode
    &&& buf[3] == 0x88u8
}

/// The payload length a response frame declares in its fifth byte.
pub open spec fn declared_payload_len(buf: Seq<u8>) -> int {
    buf[4] as int
}

/// Validates a 256-byte response frame against the opcode that was sent and,
/// on success, returns the declared payload.
///
/// Any header byte out of place is a protocol violation; the payload is not
/// touched then. A declared length larger than the 251 bytes the frame can
/// carry is a protocol violation too.
pub fn validate_response(buffer: &Vec<u8>, opcode: u8) -> (r: Result<Vec<u8>, ProtoError>)
    requires
        buffer@.len() == RESPONSE_SIZE,
    ensures
        !response_header_ok(buffer@, opcode) ==> r === Err(ProtoError::HeaderMismatch),
        response_header_ok(buffer@, opcode) && declared_payload_len(buffer@)
            > RESPONSE_PAYLOAD_CAPACITY ==> r === Err(ProtoError::LengthOutOfRange),
        response_header_ok(buffer@, opcode) && declared_payload_len(buffer@)
            <= RESPONSE_PAYLOAD_CAPACITY ==> (r matches Ok(payload) && payload@
            == buffer@.subrange(5, 5 + declared_payload_len(buffer@))),
{
    if !(buffer[0] == 0xD0 && buffer[1] == 0xDA && buffer[2] == opcode && buffer[3] == 0x88) {
        return Err(ProtoError::HeaderMismatch);
    }
    let len: usize = buffer[4] as usize;
    if len > RESPONSE_PAYLOAD_CAPACITY {
        return Err(ProtoError::LengthOutOfRange);
    }
    let mut payload: Vec<u8> = Vec::new();
    let mut i: usize = 0;
    while i < len
        invariant
            i <= len,
            len <= RESPONSE_PAYLOAD_CAPACITY,
            buffer@.len() == RESPONSE_SIZE,
            payload@ == buffer@.subrange(5, 5 + i as int),
        decreases len - i,
    {
        payload.push(buffer[5 + i]);
        proof {
            assert(buffer@.subrange(5, 5 + (i + 1) as int) =~= buffer@.subrange(5, 5 + i as int)
                .push(buffer@[5 + i as int]));
        }
        i += 1;
    }
    Ok(payload)
}

/// The response frame a device would send for `opcode` with the given
/// payload: the acknowledgment header, the payload length, then the payload
/// zero-padded to 256 bytes.
pub open spec fn response_frame_spec(opcode: u8, payload: Seq<u8>) -> Seq<u8>
    recommends
        payload.len() <= RESPONSE_PAYLOAD_CAPACITY,
{
    seq![0xD0u8, 0xDAu8, opcode, 0x88u8, payload.len() as u8] + payload
        + Seq::new((RESPONSE_PAYLOAD_CAPACITY - payload.len()) as nat, |i: int| 0u8)
}

/// Law: a well-formed response frame passes validation and yields exactly the
/// payload it was built from, whatever the opcode and payload.
pub proof fn lemma_response_round_trip(opcode: u8, payload: Seq<u8>)
    requires
        payload.len() <= RESPONSE_PAYLOAD_CAPACITY,
    ensures
        response_frame_spec(opcode, payload).len() == RESPONSE_SIZE,
        response_header_ok(response_frame_spec(opcode, payload), opcode),
        declared_payload_len(response_frame_spec(opcode, payload)) == payload.len(),
        response_frame_spec(opcode, payload).subrange(5, 5 + payload.len() as int) == payload,
{
    let frame = response_frame_spec(opcode, payload);
    assert(frame.subrange(5, 5 + payload.len() as int) =~= payload);
}

} // verus!
