//! The serialization capability.
//!
//! Payloads cross the call boundary as bytes. A type that the guest sends
//! implements [`Encode`]; a type that the guest receives implements
//! [`Decode`]. Both speak about one spec-level byte image, so a round trip
//! through the boundary is exact.
//!
//! The concrete binary form is bincode's default configuration
//! (fixed-width little-endian integers): an enum is framed by its variant
//! index as a `u32`, and the two wrappers below carry that index through
//! bincode itself.

use vstd::bytes::{spec_u32_from_le_bytes, spec_u32_to_le_bytes};
use vstd::prelude::*;

verus! {

/// A value the guest can turn into bytes before handing it across the
/// boundary.
pub trait Encode: Sized {
    /// The byte image of this value.
    spec fn encoding(&self) -> Seq<u8>;

    /// The size of the byte image. Returning a `u32` keeps every encoded
    /// payload describable by a buffer descriptor.
    fn encoded_size(&self) -> (n: u32)
        ensures
            n as nat == self.encoding().len(),
    ;

    /// The byte image itself.
    fn encode_to(&self) -> (r: Vec<u8>)
        ensures
            r@ == self.encoding(),
    ;
}

/// A value the guest can read back from bytes that the far side produced.
pub trait Decode: Sized {
    /// Which byte sequences decode, and to what. `None` marks bytes that
    /// are not a full, valid image of any value of this type.
    spec fn decodes(bytes: Seq<u8>) -> Option<Self>;

    /// Decodes `bytes`, returning `None` exactly on the byte sequences the
    /// spec rejects.
    fn decode(bytes: &[u8]) -> (r: Option<Self>)
        ensures
            r == Self::decodes(bytes@),
    ;
}

/// Relies on `bincode::serialize` under its default configuration
/// (fixed-width encoding, little-endian): a `u32` becomes exactly its four
/// little-endian bytes, and serializing an integer into a fresh vector
/// cannot fail.
#[verifier::external_body]
pub(crate) fn bincode_put_u32(value: u32) -> (r: Vec<u8>)
    ensures
        r@ == spec_u32_to_le_bytes(value),
{
    bincode::serialize(&value).expect("serializing an integer into a vector cannot fail")
}

/// Relies on `bincode::deserialize` under its default configuration
/// (fixed-width encoding, little-endian, trailing bytes allowed): a `u32`
/// is read from the first four bytes of the slice, and a slice of fewer
/// than four bytes is an error.
#[verifier::external_body]
pub(crate) fn bincode_take_u32(bytes: &[u8]) -> (r: Option<u32>)
    ensures
        bytes@.len() >= 4 ==> r == Some(spec_u32_from_le_bytes(bytes@.subrange(0, 4))),
        bytes@.len() < 4 ==> r is None,
{
    bincode::deserialize(bytes).ok()
}

/// The byte image of a fieldless enum variant: its index as a `u32`,
/// framed the way bincode frames enums.
pub fn encode_variant_index(index: u32) -> (r: Vec<u8>)
    ensures
        r@ == spec_u32_to_le_bytes(index),
{
    bincode_put_u32(index)
}

/// The length of a variant image.
pub fn variant_index_len(index: u32) -> (n: u32)
    ensures
        n as nat == spec_u32_to_le_bytes(index).len(),
{
    proof {
        vstd::bytes::lemma_auto_spec_u32_to_from_le_bytes();
    }
    4
}

/// Whether `bytes` is exactly the image of the variant with `index`:
/// four bytes, read back as that index. Anything shorter, longer, or
/// naming another index is rejected, so decoding consumes the image
/// fully or not at all.
pub fn is_variant_index(bytes: &[u8], index: u32) -> (r: bool)
    ensures
        r <==> bytes@ == spec_u32_to_le_bytes(index),
{
    proof {
        vstd::bytes::lemma_auto_spec_u32_to_from_le_bytes();
    }
    if bytes.len() != 4 {
        return false;
    }
    match bincode_take_u32(bytes) {
        Some(v) => {
            proof {
                assert(bytes@.subrange(0, 4) =~= bytes@);
            }
            v == index
        },
        None => false,
    }
}

} // verus!
