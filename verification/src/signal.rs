//! Encoding of the external corroboration signal: a frame marker written to
//! a byte-oriented channel so an independent device can log its arrival.

use vstd::prelude::*;

verus! {

/// The fixed-width big-endian byte encoding of a frame marker.
pub open spec fn be_bytes(v: u32) -> Seq<u8> {
    seq![(v >> 24) as u8, (v >> 16) as u8, (v >> 8) as u8, v as u8]
}

/// The marker value decoded back from its four big-endian bytes.
pub open spec fn be_value(bs: Seq<u8>) -> u32 {
    ((bs[0] as u32) << 24) | ((bs[1] as u32) << 16) | ((bs[2] as u32) << 8) | (bs[3] as u32)
}

/// Encodes a frame marker as four big-endian bytes.
pub fn encode_marker(v: u32) -> (r: Vec<u8>)
    ensures
        r@ == be_bytes(v),
        r@.len() == 4,
{
    let mut out: Vec<u8> = Vec::new();
    out.push((v >> 24) as u8);
    out.push((v >> 16) as u8);
    out.push((v >> 8) as u8);
    out.push(v as u8);
    proof {
        assert(out@ =~= be_bytes(v));
    }
    out
}

/// Law: the big-endian encoding is lossless — the four bytes decode back to
/// the encoded marker value.
pub proof fn lemma_marker_round_trip(v: u32)
    ensures
        be_value(be_bytes(v)) == v,
{
    assert(((((v >> 24) as u8) as u32) << 24) | ((((v >> 16) as u8) as u32) << 16) | ((((v >> 8)
        as u8) as u32) << 8) | ((v as u8) as u32) == v) by (bit_vector);
}

} // verus!
