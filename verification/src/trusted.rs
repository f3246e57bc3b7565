//! Everything this library takes on trust.
//!
//! Each item below states, without proof, what a function of another crate
//! or of the standard library does. The rest of the library is verified
//! against these statements.
use crate::envelope::{decode_envelope, encode_envelope, Envelope};
use std::any::TypeId;
use std::collections::hash_map::DefaultHasher;
use std::hash::Hash;
use vstd::prelude::*;

verus! {

/// `bytes::Bytes`: an immutable, cheaply shared byte buffer.
#[verifier::external_type_specification]
#[verifier::external_body]
pub struct ExBytes(bytes::Bytes);

/// `bincode::ErrorKind`: why `bincode` could not decode a buffer.
#[verifier::external_type_specification]
#[verifier::external_body]
pub struct ExBincodeErrorKind(bincode::ErrorKind);

/// `std::any::TypeId`: the identity of a type within one program.
#[verifier::external_type_specification]
#[verifier::external_body]
pub struct ExTypeId(TypeId);

/// The bytes that a `bytes::Bytes` holds, in order.
pub uninterp spec fn bytes_view(b: bytes::Bytes) -> Seq<u8>;

/// `Bytes::from(Vec<u8>)`: the buffer takes over the vector and holds
/// exactly its bytes.
#[verifier::external_body]
pub(crate) fn bytes_from_vec(src: Vec<u8>) -> (b: bytes::Bytes)
    ensures
        bytes_view(b) == src@,
{
    bytes::Bytes::from(src)
}

/// `<Bytes as AsRef<[u8]>>::as_ref`: the slice that the buffer gives out is
/// the bytes it holds.
#[verifier::external_body]
pub(crate) fn bytes_as_slice(b: &bytes::Bytes) -> (s: &[u8])
    ensures
        s@ == bytes_view(*b),
{
    b.as_ref()
}

/// `bincode::serialize` on the pair of a tag and a payload.
///
/// `bincode` writes the fields of a tuple one after the other, a `u64` as
/// eight little-endian bytes, and a sequence as its length, written as a
/// `u64`, followed by its elements. Writing into memory without a size limit
/// has no way to fail for these types, so the result is unwrapped.
#[verifier::external_body]
pub(crate) fn bincode_serialize(tag: u64, payload: &Vec<u8>) -> (out: Vec<u8>)
    ensures
        out@ == encode_envelope(Envelope { tag, payload: payload@ }),
{
    bincode::serialize(&(tag, payload)).unwrap()
}

/// `bincode::deserialize` at the type of a pair of a tag and a payload.
///
/// `bincode` reads eight bytes for the tag, eight for the length, and then
/// as many bytes as the length says. It fails when the buffer ends before
/// that, and leaves alone what follows the payload.
#[verifier::external_body]
pub(crate) fn bincode_deserialize(bytes: &[u8]) -> (r: Result<(u64, Vec<u8>), bincode::Error>)
    ensures
        match r {
            Ok((tag, payload)) => decode_envelope(bytes@) == Some(
                Envelope { tag, payload: payload@ },
            ),
            Err(_) => decode_envelope(bytes@) is None,
        },
{
    bincode::deserialize::<(u64, Vec<u8>)>(bytes)
}

/// `TypeId::of`: the identity of the type `M`. Nothing is stated of it.
#[verifier::external_body]
pub(crate) fn type_id_of<M: 'static>() -> TypeId {
    TypeId::of::<M>()
}

/// `<TypeId as Hash>::hash`: feeds the identity to the hasher. Nothing is
/// stated of what the hasher has taken in afterwards.
#[verifier::external_body]
pub(crate) fn hash_type_id(id: &TypeId, state: &mut DefaultHasher) {
    id.hash(state)
}

} // verus!
