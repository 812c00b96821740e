//! Decoding one aligned 188-byte window into a transport packet.

use crate::adaptation::AdaptationField;
use crate::header::{TransportPacketHeader, PAT_PID};
use crate::sync::{PACKET_SIZE, SYNC_BYTE};
use vstd::prelude::*;

verus! {

/// Why a window of bytes is not a transport packet.
#[derive(Debug, Clone, Copy, PartialEq, Eq, Structural)]
pub enum DecodeError {
    /// Fewer than 188 bytes were supplied.
    ShortBuffer,
    /// The first byte is not the sync byte.
    BadSync,
    /// The header announces neither an adaptation field nor a payload: the
    /// reserved value of the adaptation field control.
    ReservedAdaptationFieldControl,
    /// The adaptation field's length, given here as it was read, is not one
    /// that the packet admits.
    InvalidAdaptationFieldLength(u8),
}

/// A decoded packet: its header and, when the header announces one, its
/// adaptation field. The payload is not decoded and stays in the buffer.
#[derive(Debug, Clone, Copy, PartialEq, Eq, Structural)]
pub struct TransportPacket {
    pub header: TransportPacketHeader,
    pub adaptation_field: Option<AdaptationField>,
}

impl TransportPacket {
    /// What a buffer decodes to.
    ///
    /// It has to hold 188 bytes and to open with the sync byte, and the
    /// header's control bits may not both be clear. Where they announce an
    /// adaptation field, its length has to be one that the packet admits,
    /// and the byte behind a length that is not zero holds its flags.
    pub open spec fn decoded(buf: Seq<u8>) -> Result<TransportPacket, DecodeError> {
        let header = TransportPacketHeader::of_bytes(buf[1], buf[2], buf[3]);
        if buf.len() < PACKET_SIZE {
            Err(DecodeError::ShortBuffer)
        } else if buf[0] != SYNC_BYTE {
            Err(DecodeError::BadSync)
        } else if header.is_reserved() {
            Err(DecodeError::ReservedAdaptationFieldControl)
        } else if !header.announces_adaptation_field() {
            Ok(TransportPacket { header, adaptation_field: None })
        } else if !AdaptationField::length_allowed(header.announces_payload(), buf[4]) {
            Err(DecodeError::InvalidAdaptationFieldLength(buf[4]))
        } else {
            Ok(
                TransportPacket {
                    header,
                    adaptation_field: Some(AdaptationField::of_bytes(buf[4], buf[5])),
                },
            )
        }
    }

    /// The header is well formed and not reserved, and the adaptation field
    /// is present exactly when the header announces it, with a length that
    /// the packet admits.
    pub open spec fn wf(&self) -> bool {
        &&& self.header.wf()
        &&& !self.header.is_reserved()
        &&& self.adaptation_field is Some <==> self.header.announces_adaptation_field()
        &&& self.adaptation_field matches Some(field) ==> field.wf(
            self.header.announces_payload(),
        )
    }

    /// Decodes the packet that starts at the first byte of `buf`.
    ///
    /// A buffer of fewer than 188 bytes is rejected before any byte is read;
    /// bytes beyond the first 188 are ignored. Then the failures come in this
    /// order: a first byte that is not the sync byte; the reserved control
    /// value, which announces neither adaptation field nor payload; an
    /// adaptation field of a length that the packet does not admit.
    pub fn new(buf: &[u8]) -> (result: Result<TransportPacket, DecodeError>)
        ensures
            result == Self::decoded(buf@),
            buf@.len() < PACKET_SIZE <==> result == Err::<TransportPacket, DecodeError>(
                DecodeError::ShortBuffer,
            ),
            buf@.len() >= PACKET_SIZE && buf@[0] != SYNC_BYTE <==> result == Err::<
                TransportPacket,
                DecodeError,
            >(DecodeError::BadSync),
            result matches Ok(packet) ==> packet.wf(),
    {
        if buf.len() < PACKET_SIZE {
            return Err(DecodeError::ShortBuffer);
        }
        if buf[0] != SYNC_BYTE {
            return Err(DecodeError::BadSync);
        }
        let header: TransportPacketHeader = TransportPacketHeader::from_bytes(
            buf[1],
            buf[2],
            buf[3],
        );
        if header.adaptation_field_control == 0 {
            return Err(DecodeError::ReservedAdaptationFieldControl);
        }
        if !header.has_adaptation_field() {
            return Ok(TransportPacket { header, adaptation_field: None });
        }
        let length: u8 = buf[4];
        if !AdaptationField::admits_length(header.has_payload(), length) {
            return Err(DecodeError::InvalidAdaptationFieldLength(length));
        }
        Ok(
            TransportPacket {
                header,
                adaptation_field: Some(AdaptationField::from_bytes(length, buf[5])),
            },
        )
    }

    /// Whether this packet belongs to the Program Association Table.
    pub fn is_pat(&self) -> (pat: bool)
        ensures
            pat == (self.header.pid == PAT_PID),
    {
        self.header.is_pat()
    }

    /// Whether an adaptation field follows the header.
    pub fn has_adaptation_field(&self) -> (present: bool)
        ensures
            present == self.header.announces_adaptation_field(),
    {
        self.header.has_adaptation_field()
    }

    /// Whether the packet carries a payload.
    pub fn has_payload(&self) -> (present: bool)
        ensures
            present == self.header.announces_payload(),
    {
        self.header.has_payload()
    }
}

/// Whatever decodes has 188 bytes at least and gives a well-formed packet,
/// whose header is the one that the bytes at offsets 1 to 3 denote.
pub proof fn lemma_decoded_is_well_formed(buf: Seq<u8>)
    ensures
        TransportPacket::decoded(buf) matches Ok(packet) ==> {
            &&& buf.len() >= PACKET_SIZE
            &&& packet.wf()
            &&& packet.header == TransportPacketHeader::of_bytes(buf[1], buf[2], buf[3])
        },
{
}

/// In a window of full length that opens with the sync byte and whose
/// header announces an adaptation field, decoding succeeds exactly on the
/// admitted lengths: up to 182 beside a payload, 183 alone; every other
/// length is reported as it was read.
pub proof fn lemma_adaptation_length_enforced(buf: Seq<u8>)
    requires
        buf.len() >= PACKET_SIZE,
        buf[0] == SYNC_BYTE,
        TransportPacketHeader::of_bytes(buf[1], buf[2], buf[3]).announces_adaptation_field(),
    ensures
        TransportPacketHeader::of_bytes(buf[1], buf[2], buf[3]).announces_payload() ==> (
        TransportPacket::decoded(buf) is Ok <==> buf[4] <= 182),
        !TransportPacketHeader::of_bytes(buf[1], buf[2], buf[3]).announces_payload() ==> (
        TransportPacket::decoded(buf) is Ok <==> buf[4] == 183),
        TransportPacket::decoded(buf) is Err ==> TransportPacket::decoded(buf) == Err::<
            TransportPacket,
            DecodeError,
        >(DecodeError::InvalidAdaptationFieldLength(buf[4])),
{
}

/// What a window decodes to depends on its first six bytes and on whether
/// 188 bytes are there, and on nothing else.
pub proof fn lemma_decoded_reads_six_bytes(a: Seq<u8>, b: Seq<u8>)
    requires
        a.len() >= PACKET_SIZE,
        b.len() >= PACKET_SIZE,
        forall|i: int| 0 <= i <= 5 ==> a[i] == b[i],
    ensures
        TransportPacket::decoded(a) == TransportPacket::decoded(b),
{
}

} // verus!
