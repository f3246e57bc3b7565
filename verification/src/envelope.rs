//! The wire format of an envelope.
//!
//! An envelope is laid out as three fields, one after the other:
//!
//! | offset | size | field                                         |
//! |--------|------|-----------------------------------------------|
//! | 0      | 8    | tag, unsigned, little-endian                  |
//! | 8      | 8    | payload length, unsigned, little-endian       |
//! | 16     | n    | payload, exactly as many bytes as the length  |
//!
//! Bytes that follow the payload are not part of the envelope; a reader
//! ignores them. A buffer that is shorter than its header, or shorter than
//! the header and the length it declares, is malformed.
use vstd::bytes::{
    lemma_auto_spec_u64_to_from_le_bytes, spec_u64_from_le_bytes, spec_u64_to_le_bytes,
};
use vstd::prelude::*;

verus! {

/// Bytes taken by the tag and the payload length in front of the payload.
pub const HEADER_LEN: usize = 16;

/// An envelope as a mathematical value: the tag of a message type and the
/// encoded bytes of one message of that type.
pub struct Envelope {
    pub tag: u64,
    pub payload: Seq<u8>,
}

/// The bytes that stand on the wire for `e`.
pub open spec fn encode_envelope(e: Envelope) -> Seq<u8> {
    spec_u64_to_le_bytes(e.tag) + spec_u64_to_le_bytes(e.payload.len() as u64) + e.payload
}

/// The payload length that the header of `bytes` declares.
pub open spec fn declared_len(bytes: Seq<u8>) -> u64
    recommends
        bytes.len() >= HEADER_LEN,
{
    spec_u64_from_le_bytes(bytes.subrange(8, 16))
}

/// Whether `bytes` starts with a complete envelope.
pub open spec fn well_formed(bytes: Seq<u8>) -> bool {
    bytes.len() >= HEADER_LEN && declared_len(bytes) <= bytes.len() - HEADER_LEN
}

/// The envelope that `bytes` starts with, if it starts with one.
pub open spec fn decode_envelope(bytes: Seq<u8>) -> Option<Envelope> {
    if well_formed(bytes) {
        Some(
            Envelope {
                tag: spec_u64_from_le_bytes(bytes.subrange(0, 8)),
                payload: bytes.subrange(16, 16 + declared_len(bytes)),
            },
        )
    } else {
        None
    }
}

/// Decoding what was encoded gives the envelope back, whatever bytes follow
/// it in the buffer.
pub proof fn lemma_decode_ignores_trailing_bytes(e: Envelope, rest: Seq<u8>)
    requires
        e.payload.len() <= u64::MAX,
    ensures
        encode_envelope(e).len() == HEADER_LEN + e.payload.len(),
        decode_envelope(encode_envelope(e) + rest) == Some(e),
{
    lemma_auto_spec_u64_to_from_le_bytes();
    let n = e.payload.len() as u64;
    let bytes = encode_envelope(e) + rest;
    assert(bytes.subrange(0, 8) =~= spec_u64_to_le_bytes(e.tag));
    assert(bytes.subrange(8, 16) =~= spec_u64_to_le_bytes(n));
    assert(declared_len(bytes) == n);
    assert(bytes.subrange(16, 16 + n) =~= e.payload);
}

/// Round trip: decoding the encoding of an envelope yields that envelope.
pub proof fn lemma_envelope_round_trip(e: Envelope)
    requires
        e.payload.len() <= u64::MAX,
    ensures
        decode_envelope(encode_envelope(e)) == Some(e),
{
    lemma_decode_ignores_trailing_bytes(e, Seq::empty());
    assert(encode_envelope(e) + Seq::<u8>::empty() =~= encode_envelope(e));
}

/// An envelope that decodes from a buffer is the one whose encoding the
/// buffer starts with: no two envelopes share an encoding.
pub proof fn lemma_decoded_envelope_is_prefix(bytes: Seq<u8>)
    requires
        well_formed(bytes),
    ensures
        ({
            let e = decode_envelope(bytes).unwrap();
            &&& e.payload.len() == declared_len(bytes)
            &&& bytes.subrange(0, HEADER_LEN + e.payload.len()) == encode_envelope(e)
        }),
{
    lemma_auto_spec_u64_to_from_le_bytes();
    let e = decode_envelope(bytes).unwrap();
    let n = declared_len(bytes);
    assert(e.payload.len() == n);
    assert(spec_u64_to_le_bytes(e.tag) == bytes.subrange(0, 8));
    assert(spec_u64_to_le_bytes(n) == bytes.subrange(8, 16));
    assert(bytes.subrange(0, 16 + n) =~= encode_envelope(e));
}

} // verus!
