use mpegts_packet::adaptation::{AdaptationField, AdaptationFieldHeader};
use mpegts_packet::packet::{DecodeError, TransportPacket};

fn window(b1: u8, b2: u8, b3: u8, length: u8, flags: u8) -> Vec<u8> {
    let mut bytes: Vec<u8> = vec![0xAA; 188];
    bytes[0] = 0x47;
    bytes[1] = b1;
    bytes[2] = b2;
    bytes[3] = b3;
    bytes[4] = length;
    bytes[5] = flags;
    bytes
}

#[test]
fn both_flags_and_length_183_fails() {
    let bytes: Vec<u8> = window(0, 0x11, 0x30, 183, 0);
    assert_eq!(TransportPacket::new(&bytes), Err(DecodeError::InvalidAdaptationFieldLength(183)));
}

#[test]
fn both_flags_and_length_182_succeeds() {
    let bytes: Vec<u8> = window(0, 0x11, 0x30, 182, 0);
    let packet: TransportPacket = TransportPacket::new(&bytes).unwrap();
    assert!(packet.has_adaptation_field());
    assert!(packet.has_payload());
    assert_eq!(packet.adaptation_field.unwrap().length, 182);
}

#[test]
fn adaptation_only_and_length_183_succeeds() {
    let bytes: Vec<u8> = window(0, 0x11, 0x20, 183, 0);
    let packet: TransportPacket = TransportPacket::new(&bytes).unwrap();
    assert!(packet.has_adaptation_field());
    assert!(!packet.has_payload());
    assert_eq!(packet.adaptation_field.unwrap().length, 183);
}

#[test]
fn adaptation_only_and_length_182_fails() {
    let bytes: Vec<u8> = window(0, 0x11, 0x20, 182, 0);
    assert_eq!(TransportPacket::new(&bytes), Err(DecodeError::InvalidAdaptationFieldLength(182)));
}

#[test]
fn adaptation_length_rule_over_every_length() {
    for length in 0u16..256 {
        let length: u8 = length as u8;
        let with_payload: Result<TransportPacket, DecodeError> =
            TransportPacket::new(&window(0, 0x11, 0x30, length, 0));
        let alone: Result<TransportPacket, DecodeError> =
            TransportPacket::new(&window(0, 0x11, 0x20, length, 0));
        if length <= 182 {
            assert!(with_payload.is_ok());
        } else {
            assert_eq!(with_payload, Err(DecodeError::InvalidAdaptationFieldLength(length)));
        }
        if length == 183 {
            assert!(alone.is_ok());
        } else {
            assert_eq!(alone, Err(DecodeError::InvalidAdaptationFieldLength(length)));
        }
    }
}

#[test]
fn length_byte_is_not_read_without_adaptation_field() {
    for length in [0u8, 182, 183, 184, 255] {
        let packet: TransportPacket = TransportPacket::new(&window(0, 0x11, 0x10, length, 0xFF)).unwrap();
        assert_eq!(packet.adaptation_field, None);
        assert!(packet.has_payload());
        assert!(!packet.has_adaptation_field());
    }
}

#[test]
fn short_buffer_of_187_bytes_is_rejected() {
    let bytes: Vec<u8> = vec![0x47; 187];
    assert_eq!(TransportPacket::new(&bytes), Err(DecodeError::ShortBuffer));
}

#[test]
fn short_buffers_of_every_length_are_rejected() {
    for len in 0usize..188 {
        let mut bytes: Vec<u8> = vec![0x30; len];
        if len > 0 {
            bytes[0] = 0x47;
        }
        assert_eq!(TransportPacket::new(&bytes), Err(DecodeError::ShortBuffer));
    }
    let mut whole: Vec<u8> = vec![0x10; 188];
    whole[0] = 0x47;
    assert!(TransportPacket::new(&whole).is_ok());
}

#[test]
fn bytes_beyond_the_packet_are_ignored() {
    let mut bytes: Vec<u8> = window(0x41, 0x23, 0x3A, 7, 0x50);
    let expected: TransportPacket = TransportPacket::new(&bytes).unwrap();
    bytes.extend_from_slice(&[0x47, 0xFF, 0xFF, 0xFF, 0xFF, 0xFF]);
    assert_eq!(TransportPacket::new(&bytes), Ok(expected));
}

#[test]
fn first_byte_other_than_the_sync_byte_is_rejected() {
    let mut bytes: Vec<u8> = window(0x41, 0x23, 0x3A, 7, 0x50);
    assert!(TransportPacket::new(&bytes).is_ok());
    for first in [0x00u8, 0x46, 0x48, 0xB8, 0xFF] {
        bytes[0] = first;
        assert_eq!(TransportPacket::new(&bytes), Err(DecodeError::BadSync));
    }
}

#[test]
fn bad_sync_comes_before_the_header_is_judged() {
    let mut reserved: Vec<u8> = window(0, 0, 0x00, 0, 0);
    reserved[0] = 0;
    assert_eq!(TransportPacket::new(&reserved), Err(DecodeError::BadSync));
    let mut too_long: Vec<u8> = window(0, 0, 0x30, 255, 0);
    too_long[0] = 0;
    assert_eq!(TransportPacket::new(&too_long), Err(DecodeError::BadSync));
    assert_eq!(TransportPacket::new(&too_long[..187]), Err(DecodeError::ShortBuffer));
}

#[test]
fn decoding_twice_gives_the_same() {
    let good: Vec<u8> = window(0x41, 0x23, 0x3A, 7, 0x50);
    let bad: Vec<u8> = window(0x41, 0x23, 0x3A, 200, 0x50);
    assert_eq!(TransportPacket::new(&good), TransportPacket::new(&good));
    assert_eq!(TransportPacket::new(&bad), TransportPacket::new(&bad));
}

#[test]
fn packet_with_adaptation_field_and_flags() {
    let packet: TransportPacket = TransportPacket::new(&window(0x5F, 0xFE, 0xB7, 7, 0b1010_0101)).unwrap();
    assert!(!packet.header.transport_error_indicator);
    assert!(packet.header.payload_unit_start_indicator);
    assert!(!packet.header.transport_priority);
    assert_eq!(packet.header.pid, 0x1FFE);
    assert_eq!(packet.header.transport_scrambling_control, 0b10);
    assert_eq!(packet.header.adaptation_field_control, 0b11);
    assert_eq!(packet.header.continuity_counter, 7);
    assert_eq!(packet.header.final_byte, 0xB7);
    assert_eq!(
        packet.adaptation_field,
        Some(AdaptationField {
            length: 7,
            header: Some(AdaptationFieldHeader {
                discontinuity_indicator: true,
                random_access_indicator: false,
                elementary_stream_priority_indicator: true,
                pcr_flag: false,
                opcr_flag: false,
                splicing_point_flag: true,
                transport_private_data_flag: false,
                adaptation_field_extension_flag: true,
            }),
        })
    );
}

#[test]
fn empty_adaptation_field_has_no_flags() {
    let packet: TransportPacket = TransportPacket::new(&window(0, 0x11, 0x30, 0, 0xFF)).unwrap();
    assert_eq!(packet.adaptation_field, Some(AdaptationField { length: 0, header: None }));
}

#[test]
fn each_adaptation_flag_has_its_bit() {
    let names: [fn(&AdaptationFieldHeader) -> bool; 8] = [
        |h| h.adaptation_field_extension_flag,
        |h| h.transport_private_data_flag,
        |h| h.splicing_point_flag,
        |h| h.opcr_flag,
        |h| h.pcr_flag,
        |h| h.elementary_stream_priority_indicator,
        |h| h.random_access_indicator,
        |h| h.discontinuity_indicator,
    ];
    for bit in 0usize..8 {
        let header: AdaptationFieldHeader = AdaptationFieldHeader::from_byte(1u8 << bit);
        for (index, name) in names.iter().enumerate() {
            assert_eq!(name(&header), index == bit);
        }
    }
    let none: AdaptationFieldHeader = AdaptationFieldHeader::from_byte(0);
    let all: AdaptationFieldHeader = AdaptationFieldHeader::from_byte(0xFF);
    for name in names.iter() {
        assert!(!name(&none));
        assert!(name(&all));
    }
}

#[test]
fn adaptation_field_from_bytes_reads_flags_only_when_not_empty() {
    assert_eq!(AdaptationField::from_bytes(0, 0xFF), AdaptationField { length: 0, header: None });
    assert_eq!(
        AdaptationField::from_bytes(1, 0x10),
        AdaptationField { length: 1, header: Some(AdaptationFieldHeader::from_byte(0x10)) }
    );
}

#[test]
fn length_admitted_at_the_limits() {
    assert!(AdaptationField::admits_length(true, 0));
    assert!(AdaptationField::admits_length(true, 182));
    assert!(!AdaptationField::admits_length(true, 183));
    assert!(!AdaptationField::admits_length(true, 255));
    assert!(!AdaptationField::admits_length(false, 0));
    assert!(!AdaptationField::admits_length(false, 182));
    assert!(AdaptationField::admits_length(false, 183));
    assert!(!AdaptationField::admits_length(false, 184));
}

#[test]
fn packet_with_pid_zero_is_pat() {
    let pat: TransportPacket = TransportPacket::new(&window(0x40, 0x00, 0x15, 0, 0)).unwrap();
    assert!(pat.is_pat());
    assert_eq!(pat.header.continuity_counter, 5);
    let other: TransportPacket = TransportPacket::new(&window(0x40, 0x01, 0x15, 0, 0)).unwrap();
    assert!(!other.is_pat());
    let high: TransportPacket = TransportPacket::new(&window(0x10, 0x00, 0x15, 0, 0)).unwrap();
    assert!(!high.is_pat());
}

#[test]
fn reserved_control_value_is_rejected() {
    for b3 in [0x00u8, 0x05, 0x0F, 0x40, 0xC0, 0xCF] {
        assert_eq!(
            TransportPacket::new(&window(0x01, 0x00, b3, 9, 9)),
            Err(DecodeError::ReservedAdaptationFieldControl)
        );
    }
    let mut zeros: Vec<u8> = vec![0u8; 188];
    zeros[0] = 0x47;
    assert_eq!(TransportPacket::new(&zeros), Err(DecodeError::ReservedAdaptationFieldControl));
}

#[test]
fn short_buffer_comes_before_every_other_failure() {
    assert_eq!(TransportPacket::new(&window(0, 0, 0x00, 0, 0)[..187]), Err(DecodeError::ShortBuffer));
    assert_eq!(TransportPacket::new(&window(0, 0, 0x30, 255, 0)[..187]), Err(DecodeError::ShortBuffer));
}

#[test]
fn every_control_value_decides_what_the_packet_carries() {
    for control in 1u8..4 {
        let length: u8 = if control == 0b10 { 183 } else { 4 };
        let packet: TransportPacket =
            TransportPacket::new(&window(0, 0x20, control << 4, length, 0)).unwrap();
        assert_eq!(packet.has_adaptation_field(), control & 0b10 != 0);
        assert_eq!(packet.has_payload(), control & 0b01 != 0);
        assert_eq!(packet.adaptation_field.is_some(), packet.has_adaptation_field());
    }
}
