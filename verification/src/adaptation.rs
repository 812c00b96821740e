//! The optional adaptation field that follows the header.

use crate::bits::{has_bit, lemma_mask_is_bit};
use vstd::prelude::*;

verus! {

/// The longest adaptation field of a packet that also carries a payload.
pub const MAX_LENGTH_WITH_PAYLOAD: u8 = 182;

/// The length of an adaptation field that fills the packet.
pub const LENGTH_WITHOUT_PAYLOAD: u8 = 183;

/// The eight flags of the byte that follows the adaptation field's length.
#[derive(Debug, Clone, Copy, PartialEq, Eq, Structural)]
pub struct AdaptationFieldHeader {
    pub discontinuity_indicator: bool,
    pub random_access_indicator: bool,
    pub elementary_stream_priority_indicator: bool,
    pub pcr_flag: bool,
    pub opcr_flag: bool,
    pub splicing_point_flag: bool,
    pub transport_private_data_flag: bool,
    pub adaptation_field_extension_flag: bool,
}

impl AdaptationFieldHeader {
    /// The flags that a byte denotes, most significant bit first.
    pub open spec fn of_byte(flags: u8) -> AdaptationFieldHeader {
        AdaptationFieldHeader {
            discontinuity_indicator: has_bit(flags, 128),
            random_access_indicator: has_bit(flags, 64),
            elementary_stream_priority_indicator: has_bit(flags, 32),
            pcr_flag: has_bit(flags, 16),
            opcr_flag: has_bit(flags, 8),
            splicing_point_flag: has_bit(flags, 4),
            transport_private_data_flag: has_bit(flags, 2),
            adaptation_field_extension_flag: has_bit(flags, 1),
        }
    }

    /// Unpacks the flag byte.
    pub fn from_byte(flags: u8) -> (header: AdaptationFieldHeader)
        ensures
            header == Self::of_byte(flags),
    {
        proof {
            lemma_mask_is_bit(flags);
        }
        AdaptationFieldHeader {
            discontinuity_indicator: (flags & 0b1000_0000) != 0,
            random_access_indicator: (flags & 0b0100_0000) != 0,
            elementary_stream_priority_indicator: (flags & 0b0010_0000) != 0,
            pcr_flag: (flags & 0b0001_0000) != 0,
            opcr_flag: (flags & 0b0000_1000) != 0,
            splicing_point_flag: (flags & 0b0000_0100) != 0,
            transport_private_data_flag: (flags & 0b0000_0010) != 0,
            adaptation_field_extension_flag: (flags & 0b0000_0001) != 0,
        }
    }
}

/// An adaptation field as far as it is decoded: its length and, unless it is
/// empty, its flags. What the flags announce stays undecoded in the packet.
#[derive(Debug, Clone, Copy, PartialEq, Eq, Structural)]
pub struct AdaptationField {
    /// The number of bytes that follow the length byte.
    pub length: u8,
    /// The flags; present exactly when `length` is not zero.
    pub header: Option<AdaptationFieldHeader>,
}

impl AdaptationField {
    /// The lengths that a packet admits: with a payload, one byte at least
    /// is left to it; without one, the field fills the packet.
    pub open spec fn length_allowed(with_payload: bool, length: u8) -> bool {
        if with_payload {
            length <= MAX_LENGTH_WITH_PAYLOAD
        } else {
            length == LENGTH_WITHOUT_PAYLOAD
        }
    }

    /// The field that a length byte and the byte after it denote.
    pub open spec fn of_bytes(length: u8, flags: u8) -> AdaptationField {
        AdaptationField {
            length,
            header: if length > 0 {
                Some(AdaptationFieldHeader::of_byte(flags))
            } else {
                None
            },
        }
    }

    /// The flags are present exactly when the field is not empty, and the
    /// length is one that a packet with or without a payload admits.
    pub open spec fn wf(&self, with_payload: bool) -> bool {
        &&& self.header is Some <==> self.length > 0
        &&& Self::length_allowed(with_payload, self.length)
    }

    /// Whether `length` is admitted in a packet with or without a payload.
    pub fn admits_length(with_payload: bool, length: u8) -> (allowed: bool)
        ensures
            allowed == Self::length_allowed(with_payload, length),
    {
        if with_payload {
            length <= MAX_LENGTH_WITH_PAYLOAD
        } else {
            length == LENGTH_WITHOUT_PAYLOAD
        }
    }

    /// Assembles the field from its length byte and the byte after it, which
    /// is read as flags only when the length is not zero.
    pub fn from_bytes(length: u8, flags: u8) -> (field: AdaptationField)
        ensures
            field == Self::of_bytes(length, flags),
    {
        if length > 0 {
            AdaptationField { length, header: Some(AdaptationFieldHeader::from_byte(flags)) }
        } else {
            AdaptationField { length, header: None }
        }
    }
}

} // verus!
