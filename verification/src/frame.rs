//! Wire frame codec.
//!
//! A frame is `opcode: u16, flags: u8, length: u16, payload: length bytes`,
//! with the two integers little-endian.  The same framing is used end to end:
//! a request and its response are each one encoded frame.

use vstd::prelude::*;

use crate::errors::ServiceError;

verus! {

/// Number of bytes in a frame header.
pub const HEADER_BYTES: usize = 5;

/// The logical request/response unit carried on one stream.
#[derive(Clone, Debug, PartialEq, Eq)]
pub struct Frame {
    pub opcode: u16,
    pub flags: u8,
    pub payload: Vec<u8>,
}

impl Frame {
    /// A frame is well formed when its payload length fits the 16-bit
    /// length field.
    pub open spec fn wf(self) -> bool {
        self.payload@.len() <= 0xFFFF
    }
}

/// The encoding of a frame: five header bytes followed by the payload.
pub open spec fn frame_bytes(opcode: u16, flags: u8, payload: Seq<u8>) -> Seq<u8> {
    seq![
        (opcode % 256) as u8,
        (opcode / 256) as u8,
        flags,
        (payload.len() % 256) as u8,
        (payload.len() / 256) as u8,
    ] + payload
}

/// Whether a byte sequence is a well-formed frame encoding: a full header,
/// and exactly as many payload bytes as the length field declares.
pub open spec fn frame_ok(bytes: Seq<u8>) -> bool {
    &&& bytes.len() >= 5
    &&& bytes.len() == 5 + bytes[3] + 256 * bytes[4]
}

/// The opcode a well-formed encoding carries.
pub open spec fn frame_opcode(bytes: Seq<u8>) -> u16
    recommends frame_ok(bytes),
{
    (bytes[0] + 256 * bytes[1]) as u16
}

/// The flags byte a well-formed encoding carries.
pub open spec fn frame_flags(bytes: Seq<u8>) -> u8
    recommends frame_ok(bytes),
{
    bytes[2]
}

/// The payload a well-formed encoding carries.
pub open spec fn frame_payload(bytes: Seq<u8>) -> Seq<u8>
    recommends frame_ok(bytes),
{
    bytes.subrange(5, bytes.len() as int)
}

impl Frame {
    /// Encode this frame into its wire bytes.
    pub fn encode(&self) -> (r: Vec<u8>)
        requires
            self.wf(),
        ensures
            r@ == frame_bytes(self.opcode, self.flags, self.payload@),
    {
        let n: usize = self.payload.len();
        let mut out: Vec<u8> = Vec::new();
        out.push((self.opcode % 256) as u8);
        out.push((self.opcode / 256) as u8);
        out.push(self.flags);
        out.push((n % 256) as u8);
        out.push((n / 256) as u8);
        let mut i: usize = 0;
        while i < n
            invariant
                i <= n,
                n == self.payload@.len(),
                self.wf(),
                out@ == frame_bytes(self.opcode, self.flags, self.payload@)
                    .subrange(0, 5 + i as int),
            decreases n - i,
        {
            proof {
                assert(frame_bytes(self.opcode, self.flags, self.payload@)[5 + i as int]
                    == self.payload@[i as int]);
            }
            out.push(self.payload[i]);
            proof {
                assert(out@ =~= frame_bytes(self.opcode, self.flags, self.payload@)
                    .subrange(0, 5 + (i + 1) as int));
            }
            i = i + 1;
        }
        proof {
            assert(out@ =~= frame_bytes(self.opcode, self.flags, self.payload@));
        }
        out
    }

    /// Decode wire bytes into a frame.  Succeeds exactly on well-formed
    /// encodings; anything else is a framing error.
    pub fn decode(bytes: &Vec<u8>) -> (r: Result<Frame, ServiceError>)
        ensures
            r is Ok <==> frame_ok(bytes@),
            r matches Ok(f) ==> {
                &&& f.opcode == frame_opcode(bytes@)
                &&& f.flags == frame_flags(bytes@)
                &&& f.payload@ == frame_payload(bytes@)
                &&& f.wf()
            },
            r matches Err(e) ==> e == ServiceError::Framing,
    {
        let n: usize = bytes.len();
        if n < 5 {
            return Err(ServiceError::Framing);
        }
        let declared: usize = bytes[3] as usize + 256 * (bytes[4] as usize);
        if n - 5 != declared {
            return Err(ServiceError::Framing);
        }
        let opcode: u16 = bytes[0] as u16 + 256 * (bytes[1] as u16);
        let flags: u8 = bytes[2];
        let mut payload: Vec<u8> = Vec::new();
        let mut i: usize = 5;
        while i < n
            invariant
                5 <= i <= n,
                n == bytes@.len(),
                payload@ == bytes@.subrange(5, i as int),
            decreases n - i,
        {
            payload.push(bytes[i]);
            proof {
                assert(payload@ =~= bytes@.subrange(5, (i + 1) as int));
            }
            i = i + 1;
        }
        proof {
            assert(payload@ =~= frame_payload(bytes@));
        }
        Ok(Frame { opcode, flags, payload })
    }
}

/// Encoding a frame and decoding the result reproduces the same opcode,
/// flags, and payload.
pub proof fn lemma_frame_round_trip(opcode: u16, flags: u8, payload: Seq<u8>)
    requires
        payload.len() <= 0xFFFF,
    ensures
        frame_ok(frame_bytes(opcode, flags, payload)),
        frame_opcode(frame_bytes(opcode, flags, payload)) == opcode,
        frame_flags(frame_bytes(opcode, flags, payload)) == flags,
        frame_payload(frame_bytes(opcode, flags, payload)) == payload,
{
    let b = frame_bytes(opcode, flags, payload);
    vstd::arithmetic::div_mod::lemma_fundamental_div_mod(payload.len() as int, 256);
    vstd::arithmetic::div_mod::lemma_fundamental_div_mod(opcode as int, 256);
    assert(b.len() == 5 + payload.len());
    assert(b[3] + 256 * b[4] == payload.len());
    assert(b[0] + 256 * b[1] == opcode);
    assert(b.subrange(5, b.len() as int) =~= payload);
}

} // verus!
