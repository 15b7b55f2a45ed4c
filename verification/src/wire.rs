//! The wire frames of the heartbeat protocol. One request carries the node
//! id and its metric; one response carries the acknowledgment. A request
//! frame is the id's length as four little-endian bytes, then the id's
//! bytes, then the metric's `f32` bit pattern as four little-endian bytes; a
//! response frame is a single byte, one for acknowledged. The transport only
//! moves whole frames; everything they hold is encoded and checked here.

use vstd::bytes::lemma_auto_spec_u32_to_from_le_bytes;
use vstd::bytes::spec_u32_from_le_bytes;
use vstd::bytes::spec_u32_to_le_bytes;
use vstd::bytes::u32_from_le_bytes;
use vstd::bytes::u32_to_le_bytes;
use vstd::prelude::*;
use vstd::slice::slice_subrange;
use vstd::slice::slice_to_vec;

verus! {

/// The request frame for a node id (as bytes) and its metric bits.
pub open spec fn spec_heartbeat_frame(id: Seq<u8>, gpu_temp_bits: u32) -> Seq<u8> {
    spec_u32_to_le_bytes(id.len() as u32) + id + spec_u32_to_le_bytes(gpu_temp_bits)
}

/// Whether `buf` is exactly one well-formed request frame: long enough for
/// the two fixed fields, with the id's length field accounting for exactly
/// the bytes between them.
pub open spec fn valid_heartbeat_frame(buf: Seq<u8>) -> bool {
    &&& buf.len() >= 8
    &&& buf.len() - 8 == spec_u32_from_le_bytes(buf.take(4))
}

/// The id bytes a well-formed request frame carries.
pub open spec fn frame_id(buf: Seq<u8>) -> Seq<u8> {
    buf.subrange(4, buf.len() - 4)
}

/// The metric bits a well-formed request frame carries.
pub open spec fn frame_temp_bits(buf: Seq<u8>) -> u32 {
    spec_u32_from_le_bytes(buf.subrange(buf.len() - 4, buf.len() as int))
}

/// Encode one heartbeat request. The id's length must fit the four-byte
/// length field.
pub fn encode_heartbeat(id: &Vec<u8>, gpu_temp_bits: u32) -> (r: Vec<u8>)
    requires
        id@.len() <= u32::MAX,
    ensures
        r@ == spec_heartbeat_frame(id@, gpu_temp_bits),
        valid_heartbeat_frame(r@),
{
    let mut out = u32_to_le_bytes(id.len() as u32);
    let mut id_bytes = slice_to_vec(id.as_slice());
    out.append(&mut id_bytes);
    let mut tail = u32_to_le_bytes(gpu_temp_bits);
    out.append(&mut tail);
    proof {
        lemma_auto_spec_u32_to_from_le_bytes();
        assert(out@.take(4) =~= spec_u32_to_le_bytes(id@.len() as u32));
    }
    out
}

/// Decode one request frame. Exactly the well-formed frames decode: the
/// result is the carried id and metric bits if `buf` is one, and nothing
/// otherwise.
pub fn decode_heartbeat(buf: &Vec<u8>) -> (r: Option<(Vec<u8>, u32)>)
    ensures
        r is Some <==> valid_heartbeat_frame(buf@),
        r matches Some(p) ==> p.0@ == frame_id(buf@) && p.1 == frame_temp_bits(buf@),
{
    if buf.len() < 8 {
        return None;
    }
    let n = u32_from_le_bytes(slice_subrange(buf.as_slice(), 0, 4));
    proof {
        assert(buf@.subrange(0, 4) =~= buf@.take(4));
    }
    if buf.len() - 8 != n as usize {
        return None;
    }
    let id = slice_to_vec(slice_subrange(buf.as_slice(), 4, buf.len() - 4));
    let bits = u32_from_le_bytes(slice_subrange(buf.as_slice(), buf.len() - 4, buf.len()));
    Some((id, bits))
}

/// Encode one response frame: a single byte, one if acknowledged.
pub fn encode_reply(acknowledged: bool) -> (r: Vec<u8>)
    ensures
        r@ == seq![if acknowledged { 1u8 } else { 0u8 }],
{
    let mut out = Vec::new();
    if acknowledged {
        out.push(1u8);
    } else {
        out.push(0u8);
    }
    proof {
        assert(out@ =~= seq![if acknowledged { 1u8 } else { 0u8 }]);
    }
    out
}

/// Decode one response frame. Exactly the one-byte frames holding zero or
/// one decode; one means acknowledged.
pub fn decode_reply(buf: &Vec<u8>) -> (r: Option<bool>)
    ensures
        r is Some <==> (buf@.len() == 1 && (buf@[0] == 0u8 || buf@[0] == 1u8)),
        r matches Some(ack) ==> ack == (buf@[0] == 1u8),
{
    if buf.len() != 1 {
        return None;
    }
    let b = buf[0];
    if b == 1u8 {
        Some(true)
    } else if b == 0u8 {
        Some(false)
    } else {
        None
    }
}

/// Law (the request codec is lossless): every encoded heartbeat is a
/// well-formed frame, and decoding it yields back exactly the id and metric
/// bits that were encoded.
pub proof fn lemma_heartbeat_round_trip(id: Seq<u8>, gpu_temp_bits: u32)
    requires
        id.len() <= u32::MAX,
    ensures
        valid_heartbeat_frame(spec_heartbeat_frame(id, gpu_temp_bits)),
        frame_id(spec_heartbeat_frame(id, gpu_temp_bits)) == id,
        frame_temp_bits(spec_heartbeat_frame(id, gpu_temp_bits)) == gpu_temp_bits,
{
    lemma_auto_spec_u32_to_from_le_bytes();
    let frame = spec_heartbeat_frame(id, gpu_temp_bits);
    assert(frame.take(4) =~= spec_u32_to_le_bytes(id.len() as u32));
    assert(frame_id(frame) =~= id);
    assert(frame.subrange(frame.len() - 4, frame.len() as int) =~= spec_u32_to_le_bytes(
        gpu_temp_bits,
    ));
}

} // verus!
