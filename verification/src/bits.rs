//! Arithmetic reading of the bits of a byte.

use vstd::prelude::*;

verus! {

/// Whether the bit of numeric weight `weight` (a power of two, at most 128) is
/// set in `byte`.
pub open spec fn has_bit(byte: u8, weight: int) -> bool {
    (byte as int / weight) % 2 == 1
}

/// The masks used to test single bits agree with [`has_bit`].
pub proof fn lemma_mask_is_bit(byte: u8)
    ensures
        ((byte & 0b1000_0000) != 0) == has_bit(byte, 128),
        ((byte & 0b0100_0000) != 0) == has_bit(byte, 64),
        ((byte & 0b0010_0000) != 0) == has_bit(byte, 32),
        ((byte & 0b0001_0000) != 0) == has_bit(byte, 16),
        ((byte & 0b0000_1000) != 0) == has_bit(byte, 8),
        ((byte & 0b0000_0100) != 0) == has_bit(byte, 4),
        ((byte & 0b0000_0010) != 0) == has_bit(byte, 2),
        ((byte & 0b0000_0001) != 0) == has_bit(byte, 1),
{
    assert(((byte & 0b1000_0000) != 0) == ((byte / 128) % 2 == 1)) by (bit_vector);
    assert(((byte & 0b0100_0000) != 0) == ((byte / 64) % 2 == 1)) by (bit_vector);
    assert(((byte & 0b0010_0000) != 0) == ((byte / 32) % 2 == 1)) by (bit_vector);
    assert(((byte & 0b0001_0000) != 0) == ((byte / 16) % 2 == 1)) by (bit_vector);
    assert(((byte & 0b0000_1000) != 0) == ((byte / 8) % 2 == 1)) by (bit_vector);
    assert(((byte & 0b0000_0100) != 0) == ((byte / 4) % 2 == 1)) by (bit_vector);
    assert(((byte & 0b0000_0010) != 0) == ((byte / 2) % 2 == 1)) by (bit_vector);
    assert(((byte & 0b0000_0001) != 0) == ((byte / 1) % 2 == 1)) by (bit_vector);
}

} // verus!
