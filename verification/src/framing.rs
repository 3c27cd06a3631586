//! The wire framing: every peer and control-plane message travels as a
//! 4-byte big-endian length prefix followed by the message body.
//!
//! Encoding and decoding are exact inverses; the sockets that carry the
//! frames live outside.

use vstd::prelude::*;

use crate::script::bytes_range;

verus! {

/// The four big-endian bytes of a 32-bit length.
pub open spec fn spec_be32(n: u32) -> Seq<u8> {
    seq![(n >> 24) as u8, (n >> 16) as u8, (n >> 8) as u8, n as u8]
}

/// The length read back from the first four bytes of a buffer.
pub open spec fn spec_be32_val(b: Seq<u8>) -> int {
    b[0] * 0x1000000 + b[1] * 0x10000 + b[2] * 0x100 + b[3]
}

/// The frame carrying a payload: its length, big-endian, then its bytes.
pub open spec fn spec_frame(p: Seq<u8>) -> Seq<u8> {
    spec_be32(p.len() as u32) + p
}

/// Reading the length back from the four bytes it was written to gives the
/// length itself.
pub proof fn lemma_be32_roundtrip(n: u32)
    ensures
        spec_be32_val(spec_be32(n)) == n,
{
    assert(((n >> 24) as u8) as u32 as int * 0x1000000 + ((n >> 16) as u8) as u32 as int * 0x10000
        + ((n >> 8) as u8) as u32 as int * 0x100 + (n as u8) as u32 as int == n as int) by (bit_vector);
}

/// A frame decodes back to exactly the payload it was built from.
pub proof fn lemma_frame_roundtrip(p: Seq<u8>)
    requires
        p.len() <= u32::MAX,
    ensures
        spec_frame(p).len() == 4 + p.len(),
        spec_be32_val(spec_frame(p)) == p.len(),
        spec_frame(p).subrange(4, 4 + p.len() as int) == p,
{
    lemma_be32_roundtrip(p.len() as u32);
    assert(spec_be32_val(spec_frame(p)) == spec_be32_val(spec_be32(p.len() as u32)));
    assert(spec_frame(p).subrange(4, 4 + p.len() as int) =~= p);
}

/// Wraps a payload in a frame: its length as four big-endian bytes, then the
/// payload. Nothing longer than the length field can carry is framed.
pub fn encode_frame(payload: &Vec<u8>) -> (r: Option<Vec<u8>>)
    ensures
        match r {
            Some(f) => payload@.len() <= u32::MAX && f@ == spec_frame(payload@),
            None => payload@.len() > u32::MAX,
        },
{
    if payload.len() > u32::MAX as usize {
        return None;
    }
    let n = payload.len() as u32;
    let mut f: Vec<u8> = Vec::new();
    f.push((n >> 24) as u8);
    f.push((n >> 16) as u8);
    f.push((n >> 8) as u8);
    f.push(n as u8);
    crate::script::extend_bytes(&mut f, payload);
    proof {
        assert(f@ =~= spec_frame(payload@));
    }
    Some(f)
}

/// Reads one frame off the front of a buffer: the payload and how many bytes
/// the frame occupied. Nothing is returned until the whole frame is present.
pub fn decode_frame(buf: &Vec<u8>) -> (r: Option<(Vec<u8>, usize)>)
    ensures
        match r {
            Some(pc) => {
                &&& buf@.len() >= 4
                &&& pc.0@.len() == spec_be32_val(buf@)
                &&& pc.1 == 4 + pc.0@.len()
                &&& pc.0@ == buf@.subrange(4, 4 + pc.0@.len() as int)
            },
            None => buf@.len() < 4 || buf@.len() < 4 + spec_be32_val(buf@),
        },
{
    if buf.len() < 4 {
        return None;
    }
    let n: usize = (buf[0] as usize) * 0x1000000 + (buf[1] as usize) * 0x10000 + (buf[2] as usize)
        * 0x100 + (buf[3] as usize);
    if buf.len() - 4 < n {
        return None;
    }
    let payload = bytes_range(buf, 4, 4 + n);
    Some((payload, 4 + n))
}

} // verus!
