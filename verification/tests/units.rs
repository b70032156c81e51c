//! Unit exercises of the descriptor codec, the growable buffer and the
//! variant framing, against concrete values.

use plugitin::buffer::GrowableBuffer;
use plugitin::codec::{encode_variant_index, is_variant_index, variant_index_len};
use plugitin::desc::{pack_buffer_desc, unpack_buffer_desc};
use plugitin::greeting;

#[test]
fn greeting_is_plain() {
    assert_eq!(greeting(), "Hello world!");
}

#[test]
fn pack_puts_offset_low_and_length_high() {
    assert_eq!(pack_buffer_desc(3, 7), 0x0000_0007_0000_0003u64);
    assert_eq!(pack_buffer_desc(0, 0), 0);
    assert_eq!(pack_buffer_desc(u32::MAX, 0), 0x0000_0000_FFFF_FFFFu64);
    assert_eq!(pack_buffer_desc(0, u32::MAX), 0xFFFF_FFFF_0000_0000u64);
}

#[test]
fn unpack_splits_the_halves() {
    assert_eq!(unpack_buffer_desc(0x0000_0007_0000_0003u64), (3, 7));
    assert_eq!(unpack_buffer_desc(0), (0, 0));
    assert_eq!(unpack_buffer_desc(u64::MAX), (u32::MAX, u32::MAX));
}

#[test]
fn pack_then_unpack_round_trips() {
    let pairs = [
        (0u32, 0u32),
        (1, 2),
        (0xDEAD_BEEF, 0x0BAD_CAFE),
        (u32::MAX, u32::MAX),
        (u32::MAX, 0),
        (0, u32::MAX),
    ];
    for (offset, length) in pairs {
        assert_eq!(unpack_buffer_desc(pack_buffer_desc(offset, length)), (offset, length));
    }
}

#[test]
fn growth_within_capacity_changes_nothing() {
    let mut buffer = GrowableBuffer::new();
    buffer.ensure_capacity(3);
    buffer.write_prefix(&vec![1, 2, 3]);

    buffer.ensure_capacity(2);
    assert_eq!(buffer.capacity(), 3);
    assert_eq!(buffer.byte_at(0), 1);
    assert_eq!(buffer.byte_at(1), 2);
    assert_eq!(buffer.byte_at(2), 3);
}

#[test]
fn growth_is_monotonic_and_zeroing() {
    let mut buffer = GrowableBuffer::new();
    assert_eq!(buffer.capacity(), 0);

    buffer.ensure_capacity(5);
    assert_eq!(buffer.capacity(), 5);

    // A larger requirement replaces the region with fresh zeroes.
    buffer.write_prefix(&vec![7, 7, 7, 7, 7]);
    buffer.ensure_capacity(9);
    assert_eq!(buffer.capacity(), 9);
    for i in 0..9 {
        assert_eq!(buffer.byte_at(i), 0);
    }

    // A smaller requirement afterwards neither shrinks nor reallocates.
    buffer.ensure_capacity(3);
    assert_eq!(buffer.capacity(), 9);
}

#[test]
fn buffer_reads_back_what_was_written() {
    let mut buffer = GrowableBuffer::new();
    buffer.ensure_capacity(4);
    buffer.write_prefix(&vec![10, 20, 30, 40]);
    assert_eq!(buffer.read_range(0, 4), vec![10, 20, 30, 40]);
    assert_eq!(buffer.read_range(1, 2), vec![20, 30]);
}

#[test]
fn variant_framing_matches_bincode() {
    assert_eq!(encode_variant_index(0), bincode::serialize(&0u32).unwrap());
    assert_eq!(encode_variant_index(258), vec![2, 1, 0, 0]);
    assert_eq!(variant_index_len(0), 4);

    assert!(is_variant_index(&encode_variant_index(258), 258));
    assert!(!is_variant_index(&encode_variant_index(258), 259));
    assert!(!is_variant_index(&[2, 1, 0], 258), "a truncated image is rejected");
    assert!(!is_variant_index(&[2, 1, 0, 0, 0], 258), "trailing bytes are rejected");
}
