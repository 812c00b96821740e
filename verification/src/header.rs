//! The fixed four-byte header of a transport packet.

use crate::bits::{has_bit, lemma_mask_is_bit};
use vstd::prelude::*;

verus! {

/// The packet identifier reserved for the Program Association Table.
pub const PAT_PID: u16 = 0x0000;

/// The largest packet identifier: thirteen bits.
pub const MAX_PID: u16 = 0x1FFF;

/// The fields of the header's three bytes that follow the sync byte.
#[derive(Debug, Clone, Copy, PartialEq, Eq, Structural)]
pub struct TransportPacketHeader {
    /// An uncorrectable error occurred in this packet.
    pub transport_error_indicator: bool,
    /// The payload begins a new data unit.
    pub payload_unit_start_indicator: bool,
    pub transport_priority: bool,
    /// Thirteen-bit packet identifier.
    pub pid: u16,
    /// Two bits.
    pub transport_scrambling_control: u8,
    /// Two bits: weight 2 announces an adaptation field, weight 1 a payload.
    pub adaptation_field_control: u8,
    /// Four bits.
    pub continuity_counter: u8,
    /// The last header byte as it was read: scrambling control, adaptation
    /// field control and continuity counter, packed.
    pub final_byte: u8,
}

impl TransportPacketHeader {
    /// The header that the bytes at offsets 1, 2 and 3 of a packet denote.
    pub open spec fn of_bytes(b1: u8, b2: u8, b3: u8) -> TransportPacketHeader {
        TransportPacketHeader {
            transport_error_indicator: has_bit(b1, 128),
            payload_unit_start_indicator: has_bit(b1, 64),
            transport_priority: has_bit(b1, 32),
            pid: ((b1 % 32) * 256 + b2) as u16,
            transport_scrambling_control: (b3 / 64) as u8,
            adaptation_field_control: ((b3 / 16) % 4) as u8,
            continuity_counter: (b3 % 16) as u8,
            final_byte: b3,
        }
    }

    /// Every field lies within its bit width, and the raw byte agrees with the
    /// three fields unpacked from it.
    pub open spec fn wf(&self) -> bool {
        &&& self.pid <= MAX_PID
        &&& self.transport_scrambling_control <= 3
        &&& self.adaptation_field_control <= 3
        &&& self.continuity_counter <= 15
        &&& self.final_byte == self.transport_scrambling_control * 64
            + self.adaptation_field_control * 16 + self.continuity_counter
    }

    /// The three bytes that carry this header's fields.
    pub open spec fn packed(&self) -> (u8, u8, u8) {
        (
            ((if self.transport_error_indicator { 128int } else { 0 })
                + (if self.payload_unit_start_indicator { 64int } else { 0 })
                + (if self.transport_priority { 32int } else { 0 })
                + self.pid / 256) as u8,
            (self.pid % 256) as u8,
            (self.transport_scrambling_control * 64 + self.adaptation_field_control * 16
                + self.continuity_counter) as u8,
        )
    }

    /// Whether the control bits announce an adaptation field.
    pub open spec fn announces_adaptation_field(&self) -> bool {
        has_bit(self.adaptation_field_control, 2)
    }

    /// Whether the control bits announce a payload.
    pub open spec fn announces_payload(&self) -> bool {
        has_bit(self.adaptation_field_control, 1)
    }

    /// Whether the control bits hold the reserved value, which announces
    /// nothing.
    pub open spec fn is_reserved(&self) -> bool {
        self.adaptation_field_control == 0
    }

    /// Unpacks the header fields from the three bytes after the sync byte.
    pub fn from_bytes(b1: u8, b2: u8, b3: u8) -> (header: TransportPacketHeader)
        ensures
            header == Self::of_bytes(b1, b2, b3),
            header.wf(),
    {
        proof {
            lemma_mask_is_bit(b1);
            assert(((((b1 as u16) << 8) | (b2 as u16)) & 0b0001_1111_1111_1111) == (b1 % 32)
                * 256 + b2) by (bit_vector);
            assert(((b3 & 0b1100_0000) >> 6) == b3 / 64) by (bit_vector);
            assert(((b3 & 0b0011_0000) >> 4) == (b3 / 16) % 4) by (bit_vector);
            assert((b3 & 0b1111) == b3 % 16) by (bit_vector);
        }
        TransportPacketHeader {
            transport_error_indicator: (b1 & 0b1000_0000) != 0,
            payload_unit_start_indicator: (b1 & 0b0100_0000) != 0,
            transport_priority: (b1 & 0b0010_0000) != 0,
            pid: (((b1 as u16) << 8) | (b2 as u16)) & 0b0001_1111_1111_1111,
            transport_scrambling_control: (b3 & 0b1100_0000) >> 6,
            adaptation_field_control: (b3 & 0b0011_0000) >> 4,
            continuity_counter: b3 & 0b1111,
            final_byte: b3,
        }
    }

    /// Whether this packet belongs to the Program Association Table.
    pub fn is_pat(&self) -> (pat: bool)
        ensures
            pat == (self.pid == PAT_PID),
    {
        self.pid == PAT_PID
    }

    /// Whether an adaptation field follows the header.
    pub fn has_adaptation_field(&self) -> (present: bool)
        ensures
            present == self.announces_adaptation_field(),
    {
        proof {
            lemma_mask_is_bit(self.adaptation_field_control);
        }
        (self.adaptation_field_control & 0b10) != 0
    }

    /// Whether the packet carries a payload.
    pub fn has_payload(&self) -> (present: bool)
        ensures
            present == self.announces_payload(),
    {
        proof {
            lemma_mask_is_bit(self.adaptation_field_control);
        }
        (self.adaptation_field_control & 0b01) != 0
    }
}

/// Unpacking the bytes that carry a well-formed header gives that header
/// back, field for field.
pub proof fn lemma_unpack_packed(header: TransportPacketHeader)
    requires
        header.wf(),
    ensures
        TransportPacketHeader::of_bytes(header.packed().0, header.packed().1, header.packed().2)
            == header,
{
}

/// Every triple of bytes unpacks to a well-formed header, whose identifier
/// never exceeds thirteen bits, and packing that header gives the bytes back.
pub proof fn lemma_pack_unpacked(b1: u8, b2: u8, b3: u8)
    ensures
        TransportPacketHeader::of_bytes(b1, b2, b3).wf(),
        TransportPacketHeader::of_bytes(b1, b2, b3).pid <= MAX_PID,
        TransportPacketHeader::of_bytes(b1, b2, b3).packed() == (b1, b2, b3),
{
}

} // verus!
