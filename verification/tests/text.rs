use mpegts_packet::adaptation::{AdaptationField, AdaptationFieldHeader};
use mpegts_packet::header::TransportPacketHeader;
use mpegts_packet::packet::TransportPacket;

fn window(b1: u8, b2: u8, b3: u8, length: u8, flags: u8) -> Vec<u8> {
    let mut bytes: Vec<u8> = vec![0xAA; 188];
    bytes[0] = 0x47;
    bytes[1] = b1;
    bytes[2] = b2;
    bytes[3] = b3;
    bytes[4] = length;
    bytes[5] = flags;
    bytes
}

#[test]
fn header_text_of_a_pat_header() {
    let header: TransportPacketHeader = TransportPacketHeader::from_bytes(0x40, 0x00, 0x15);
    assert_eq!(
        header.to_text(),
        "\ttransport_error_indicator: false\n\
         \tpayload_unit_start_indicator: true\n\
         \ttransport_priority: false\n\
         \tpid: 0x0\n\
         \ttransport_scrambling_control: 0b00\n\
         \tadaptation_field_control: 0b01\n\
         \tcontinuity_counter: 5\n\
         \tfinal_byte: 00010101"
    );
}

#[test]
fn header_text_of_the_largest_values() {
    let header: TransportPacketHeader = TransportPacketHeader::from_bytes(0xFF, 0xFF, 0xFF);
    assert_eq!(
        header.to_text(),
        "\ttransport_error_indicator: true\n\
         \tpayload_unit_start_indicator: true\n\
         \ttransport_priority: true\n\
         \tpid: 0x1fff\n\
         \ttransport_scrambling_control: 0b11\n\
         \tadaptation_field_control: 0b11\n\
         \tcontinuity_counter: 15\n\
         \tfinal_byte: 11111111"
    );
}

#[test]
fn header_text_agrees_with_std_formatting() {
    for b1 in [0x00u8, 0x1A, 0x80, 0xFF] {
        for b2 in [0x00u8, 0x0B, 0xF0] {
            for b3 in 0u16..256 {
                let h: TransportPacketHeader = TransportPacketHeader::from_bytes(b1, b2, b3 as u8);
                let expected: String = format!(
                    "\ttransport_error_indicator: {}\n\
                     \tpayload_unit_start_indicator: {}\n\
                     \ttransport_priority: {}\n\
                     \tpid: {:#x}\n\
                     \ttransport_scrambling_control: 0b{:02b}\n\
                     \tadaptation_field_control: 0b{:02b}\n\
                     \tcontinuity_counter: {}\n\
                     \tfinal_byte: {:08b}",
                    h.transport_error_indicator,
                    h.payload_unit_start_indicator,
                    h.transport_priority,
                    h.pid,
                    h.transport_scrambling_control,
                    h.adaptation_field_control,
                    h.continuity_counter,
                    h.final_byte
                );
                assert_eq!(h.to_text(), expected);
            }
        }
    }
}

#[test]
fn header_text_does_not_cut_wide_values() {
    let mut header: TransportPacketHeader = TransportPacketHeader::from_bytes(0, 0, 0);
    header.pid = 0xFFFF;
    header.transport_scrambling_control = 0b101;
    header.adaptation_field_control = 255;
    header.continuity_counter = 200;
    header.final_byte = 1;
    assert_eq!(
        header.to_text(),
        "\ttransport_error_indicator: false\n\
         \tpayload_unit_start_indicator: false\n\
         \ttransport_priority: false\n\
         \tpid: 0xffff\n\
         \ttransport_scrambling_control: 0b101\n\
         \tadaptation_field_control: 0b11111111\n\
         \tcontinuity_counter: 200\n\
         \tfinal_byte: 00000001"
    );
}

#[test]
fn adaptation_flags_text_agrees_with_debug() {
    for flags in 0u16..256 {
        let header: AdaptationFieldHeader = AdaptationFieldHeader::from_byte(flags as u8);
        assert_eq!(header.to_text(), format!("{:?}", header));
    }
}

#[test]
fn adaptation_field_text_agrees_with_debug() {
    for length in [0u8, 1, 9, 10, 99, 100, 183, 255] {
        let field: AdaptationField = AdaptationField::from_bytes(length, 0b0101_1010);
        assert_eq!(field.to_text(), format!("{:?}", field));
    }
}

#[test]
fn adaptation_field_text_written_out() {
    assert_eq!(
        AdaptationField::from_bytes(0, 0xFF).to_text(),
        "AdaptationField { length: 0, header: None }"
    );
    assert_eq!(
        AdaptationField::from_bytes(7, 0x10).to_text(),
        "AdaptationField { length: 7, header: Some(AdaptationFieldHeader { \
         discontinuity_indicator: false, random_access_indicator: false, \
         elementary_stream_priority_indicator: false, pcr_flag: true, opcr_flag: false, \
         splicing_point_flag: false, transport_private_data_flag: false, \
         adaptation_field_extension_flag: false }) }"
    );
}

#[test]
fn packet_text_without_adaptation_field() {
    let packet: TransportPacket = TransportPacket::new(&window(0x40, 0x00, 0x15, 0, 0)).unwrap();
    assert_eq!(
        packet.to_text(),
        "transport packet:\n\
         header:\n\
         \ttransport_error_indicator: false\n\
         \tpayload_unit_start_indicator: true\n\
         \ttransport_priority: false\n\
         \tpid: 0x0\n\
         \ttransport_scrambling_control: 0b00\n\
         \tadaptation_field_control: 0b01\n\
         \tcontinuity_counter: 5\n\
         \tfinal_byte: 00010101\n\
         adaptation_field:\n\
         \tNone"
    );
}

#[test]
fn packet_text_agrees_with_std_formatting() {
    for (b3, length) in [(0x10u8, 0u8), (0x30, 0), (0x30, 182), (0x20, 183), (0x3F, 1)] {
        let packet: TransportPacket = TransportPacket::new(&window(0x1F, 0xAB, b3, length, 0xC3)).unwrap();
        let expected: String = format!(
            "transport packet:\nheader:\n{}\nadaptation_field:\n\t{:?}",
            packet.header.to_text(),
            packet.adaptation_field.as_ref()
        );
        assert_eq!(packet.to_text(), expected);
    }
}
