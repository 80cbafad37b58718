//! Client request building and response parsing.
//!
//! The client loop reads one line of text at a time, opens a fresh stream
//! for it, sends one encoded frame, and reads the response stream to
//! completion.  The computations on both ends of that exchange live here.

use vstd::prelude::*;

use crate::errors::ServiceError;
use crate::frame::{frame_bytes, frame_ok, frame_payload, Frame, HEADER_BYTES};
use crate::handler::{echo_response, request_accepted, ReadOutcome};

verus! {

/// The single supported operation: echo.
pub const OPCODE_ECHO: u16 = 1;

/// The fixed flags byte of every request this client sends.
pub const FLAGS_NONE: u8 = 0;

/// The largest line a request can carry: the whole frame, header included,
/// must stay within the receive cap the server enforces.
pub const MAX_LINE_BYTES: usize = 65531;

/// The request frame sent for one line of input.
pub open spec fn request_for(line: Seq<u8>) -> Seq<u8> {
    frame_bytes(OPCODE_ECHO, FLAGS_NONE, line)
}

/// Build the request bytes for one line of input.  A line longer than
/// [`MAX_LINE_BYTES`] cannot be framed within the server's cap and is
/// rejected as `RequestTooLarge` before anything is sent.
pub fn build_request(line: &Vec<u8>) -> (r: Result<Vec<u8>, ServiceError>)
    ensures
        r is Ok <==> line@.len() <= MAX_LINE_BYTES,
        r matches Ok(req) ==> req@ == request_for(line@),
        r matches Err(e) ==> e == ServiceError::RequestTooLarge,
{
    if line.len() > MAX_LINE_BYTES {
        return Err(ServiceError::RequestTooLarge);
    }
    let frame = Frame { opcode: OPCODE_ECHO, flags: FLAGS_NONE, payload: line.clone() };
    Ok(frame.encode())
}

/// Parse a response stream's bytes and return the echoed payload.  Succeeds
/// exactly on a well-formed frame; anything else is a framing error.
pub fn parse_response(bytes: &Vec<u8>) -> (r: Result<Vec<u8>, ServiceError>)
    ensures
        r is Ok <==> frame_ok(bytes@),
        r matches Ok(p) ==> p@ == frame_payload(bytes@),
        r matches Err(e) ==> e == ServiceError::Framing,
{
    let frame = match Frame::decode(bytes) {
        Ok(f) => f,
        Err(_) => {
            return Err(ServiceError::Framing);
        },
    };
    Ok(frame.payload)
}

/// Interpret the read of a response stream, under the same cap the server
/// enforces on requests: an over-long response is rejected rather than
/// buffered without bound, a failed read is a read error, and a complete
/// response must be one well-formed frame, whose payload is the reply.
pub fn handle_reply(outcome: &ReadOutcome) -> (r: Result<Vec<u8>, ServiceError>)
    ensures
        outcome is TooLong ==> (r matches Err(e) && e == ServiceError::RequestTooLarge),
        outcome is Failed ==> (r matches Err(e) && e == ServiceError::Read),
        outcome matches ReadOutcome::Complete(b) ==> {
            &&& r is Ok <==> frame_ok(b@)
            &&& (r matches Ok(p) ==> p@ == frame_payload(b@))
            &&& (!frame_ok(b@) ==> (r matches Err(e) && e == ServiceError::Framing))
        },
{
    match outcome {
        ReadOutcome::TooLong => Err(ServiceError::RequestTooLarge),
        ReadOutcome::Failed => Err(ServiceError::Read),
        ReadOutcome::Complete(b) => parse_response(b),
    }
}

/// Echo round trip: for every line that fits one request frame, the request
/// built for it is accepted by the server, the server's response is exactly
/// one well-formed frame, and the payload parsed out of that response is the
/// line itself.
pub proof fn lemma_echo_round_trip(line: Seq<u8>)
    requires
        line.len() <= MAX_LINE_BYTES,
    ensures
        request_accepted(request_for(line)),
        frame_ok(echo_response(request_for(line))),
        frame_payload(echo_response(request_for(line))) == line,
{
    let req = request_for(line);
    crate::frame::lemma_frame_round_trip(OPCODE_ECHO, FLAGS_NONE, line);
    assert(req.len() == HEADER_BYTES + line.len());
    crate::frame::lemma_frame_round_trip(
        crate::frame::frame_opcode(req),
        crate::frame::frame_flags(req),
        frame_payload(req),
    );
}

} // verus!
