//! Tags, envelopes and the buffers that cross the transport.
use crate::envelope::{decode_envelope, encode_envelope, lemma_envelope_round_trip, Envelope};
use crate::trusted::{
    bincode_deserialize, bincode_serialize, bytes_as_slice, bytes_from_vec, bytes_view,
    hash_type_id, type_id_of,
};
use bytes::Bytes;
use std::collections::hash_map::DefaultHasher;
use std::hash::Hasher;
use vstd::prelude::*;
use vstd::std_specs::convert::FromSpecImpl;

verus! {

/// The decoded envelope of one relayed message: the wire tag of its type
/// and the encoded bytes of the message itself.
#[derive(Debug)]
pub struct TaggedData {
    pub tag: u64,
    pub data: Vec<u8>,
}

impl View for TaggedData {
    type V = Envelope;

    open spec fn view(&self) -> Envelope {
        Envelope { tag: self.tag, payload: self.data@ }
    }
}

/// An opaque buffer on its way to or from the transport.
#[derive(Debug)]
pub struct RelayData(pub Bytes);

impl View for RelayData {
    type V = Seq<u8>;

    open spec fn view(&self) -> Seq<u8> {
        bytes_view(self.0)
    }
}

impl From<Bytes> for RelayData {
    fn from(bytes: Bytes) -> (rd: RelayData) {
        RelayData(bytes)
    }
}

impl FromSpecImpl<Bytes> for RelayData {
    open spec fn obeys_from_spec() -> bool {
        true
    }

    open spec fn from_spec(bytes: Bytes) -> RelayData {
        RelayData(bytes)
    }
}

/// The wire tag of the message type `M`: the hash of the type's identity.
///
/// The tag is the same for every call within one build of a program. It is
/// not stable across builds, and two types may share a tag.
pub fn tag<M: 'static>() -> u64 {
    let type_id = type_id_of::<M>();
    let mut hasher = DefaultHasher::new();
    hash_type_id(&type_id, &mut hasher);
    hasher.finish()
}

/// Frames the encoded bytes of one message with the tag of its type.
pub fn into_relay_data(tag: u64, payload: Vec<u8>) -> (rd: RelayData)
    ensures
        rd@ == encode_envelope(Envelope { tag, payload: payload@ }),
        decode_envelope(rd@) == Some(Envelope { tag, payload: payload@ }),
{
    let td = TaggedData { tag, data: payload };
    let serialized = bincode_serialize(td.tag, &td.data);
    proof {
        assert(td.data@.len() == td.data.len() <= usize::MAX <= u64::MAX);
        lemma_envelope_round_trip(td@);
    }
    RelayData(bytes_from_vec(serialized))
}

impl TaggedData {
    /// Reads the envelope that a buffer starts with. A buffer that does not
    /// start with a complete envelope gives `None`.
    pub fn from_relay_data(rd: &RelayData) -> (r: Option<TaggedData>)
        ensures
            match r {
                Some(td) => decode_envelope(rd@) == Some(td@),
                None => decode_envelope(rd@) is None,
            },
    {
        match bincode_deserialize(bytes_as_slice(&rd.0)) {
            Ok((tag, data)) => Some(TaggedData { tag, data }),
            Err(_) => None,
        }
    }
}

} // verus!
