//! Buffer descriptors.
//!
//! The call boundary can return only a single scalar, so a buffer is
//! described by one `u64`: the memory offset in the low 32 bits and the
//! byte length in the high 32 bits. Packing and unpacking are total and
//! exact inverses of each other.

use vstd::prelude::*;

verus! {

/// The packed form of an (offset, length) descriptor: the offset in the
/// low 32 bits, the length in the high 32 bits.
pub open spec fn spec_pack(offset: u32, length: u32) -> u64 {
    (offset as u64) | ((length as u64) << 32)
}

/// The offset half of a packed descriptor: its low 32 bits.
pub open spec fn spec_unpack_offset(packed: u64) -> u32 {
    (packed & 0xFFFF_FFFF) as u32
}

/// The length half of a packed descriptor: its high 32 bits.
pub open spec fn spec_unpack_length(packed: u64) -> u32 {
    (packed >> 32) as u32
}

/// Packs a (offset, length) pair of `u32`s into a single `u64`. Total: every
/// pair has a packed form.
pub fn pack_buffer_desc(ptr: u32, len: u32) -> (r: u64)
    ensures
        r == spec_pack(ptr, len),
{
    (ptr as u64) | ((len as u64) << 32)
}

/// Unpacks a (offset, length) pair of `u32`s from a packed `u64`. Total:
/// every `u64` unpacks, and on the output of `pack_buffer_desc` this returns
/// exactly the pair that was packed.
pub fn unpack_buffer_desc(packed: u64) -> (r: (u32, u32))
    ensures
        r.0 == spec_unpack_offset(packed),
        r.1 == spec_unpack_length(packed),
{
    let ptr = (packed & 0xFFFF_FFFF) as u32;
    let len = (packed >> 32) as u32;
    (ptr, len)
}

/// Round-trip law: unpacking a packed descriptor yields the packed pair,
/// for all (offset, length) pairs of 32-bit unsigned integers.
pub proof fn lemma_pack_unpack_roundtrip(offset: u32, length: u32)
    ensures
        spec_unpack_offset(spec_pack(offset, length)) == offset,
        spec_unpack_length(spec_pack(offset, length)) == length,
{
    assert((((offset as u64) | ((length as u64) << 32)) & 0xFFFF_FFFF) == (offset as u64))
        by (bit_vector);
    assert((((offset as u64) | ((length as u64) << 32)) >> 32) == (length as u64))
        by (bit_vector);
}

/// Packing is injective: distinct pairs pack to distinct scalars.
pub proof fn lemma_pack_injective(o1: u32, l1: u32, o2: u32, l2: u32)
    requires
        spec_pack(o1, l1) == spec_pack(o2, l2),
    ensures
        o1 == o2,
        l1 == l2,
{
    lemma_pack_unpack_roundtrip(o1, l1);
    lemma_pack_unpack_roundtrip(o2, l2);
}

} // verus!
