//! Per-stream request handling.
//!
//! The surrounding process reads a stream's receive half to completion under
//! the cap and reports what happened as a [`ReadOutcome`]; [`respond`] then
//! decides the response bytes to write back, or the error that ends the
//! stream without a response.

use vstd::prelude::*;

use crate::errors::ServiceError;
use crate::frame::{frame_bytes, frame_flags, frame_ok, frame_opcode, frame_payload, Frame};

verus! {

/// Hard cap on the bytes read from one request stream: 64 KiB.
pub const MAX_REQUEST_BYTES: usize = 65536;

/// What reading a stream's receive half to completion produced.
#[derive(Clone, Debug, PartialEq, Eq)]
pub enum ReadOutcome {
    /// The peer finished the stream; these are all its bytes.
    Complete(Vec<u8>),
    /// The peer sent more than the cap before finishing.
    TooLong,
    /// The receive half failed before the request completed.
    Failed,
}

/// The response owed to a well-formed request: a frame echoing the request's
/// opcode, flags, and payload.
pub open spec fn echo_response(req: Seq<u8>) -> Seq<u8>
    recommends frame_ok(req),
{
    frame_bytes(frame_opcode(req), frame_flags(req), frame_payload(req))
}

/// Whether a completed request of these bytes is answered at all: it must be
/// within the cap and a well-formed frame.
pub open spec fn request_accepted(req: Seq<u8>) -> bool {
    req.len() <= MAX_REQUEST_BYTES && frame_ok(req)
}

/// Decide the response to one request stream.
///
/// An over-long request is rejected as `RequestTooLarge` and gets no
/// response; a failed read is `ReadError`; bytes that are not one
/// well-formed frame are a `FramingError`.  A well-formed request within the
/// cap is owed exactly the echo response.
pub fn respond(outcome: &ReadOutcome) -> (r: Result<Vec<u8>, ServiceError>)
    ensures
        outcome is TooLong ==> (r matches Err(e) && e == ServiceError::RequestTooLarge),
        outcome is Failed ==> (r matches Err(e) && e == ServiceError::Read),
        outcome matches ReadOutcome::Complete(req) ==> {
            &&& r is Ok <==> request_accepted(req@)
            &&& req@.len() > MAX_REQUEST_BYTES
                ==> (r matches Err(e) && e == ServiceError::RequestTooLarge)
            &&& (req@.len() <= MAX_REQUEST_BYTES && !frame_ok(req@))
                ==> (r matches Err(e) && e == ServiceError::Framing)
            &&& r matches Ok(resp) ==> resp@ == echo_response(req@)
        },
{
    match outcome {
        ReadOutcome::TooLong => Err(ServiceError::RequestTooLarge),
        ReadOutcome::Failed => Err(ServiceError::Read),
        ReadOutcome::Complete(req) => {
            if req.len() > MAX_REQUEST_BYTES {
                return Err(ServiceError::RequestTooLarge);
            }
            let frame = match Frame::decode(req) {
                Ok(f) => f,
                Err(_) => {
                    return Err(ServiceError::Framing);
                },
            };
            Ok(frame.encode())
        },
    }
}

/// Classify the delivery of a response: writing the bytes and finishing the
/// send half must both succeed, so that the peer's read completes; a
/// failure of either is a write error, scoped to this stream.
pub fn seal_response(delivered: bool) -> (r: Result<(), ServiceError>)
    ensures
        r is Ok <==> delivered,
        r matches Err(e) ==> e == ServiceError::Write,
{
    if delivered {
        Ok(())
    } else {
        Err(ServiceError::Write)
    }
}

/// An over-long request is always rejected as `RequestTooLarge`, whatever
/// its contents: no response is owed or produced for it.
pub proof fn lemma_oversize_rejected(req: Seq<u8>)
    requires
        req.len() > MAX_REQUEST_BYTES,
    ensures
        !request_accepted(req),
{
}

} // verus!
