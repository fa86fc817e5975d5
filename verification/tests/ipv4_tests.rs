use netframe::error::{Error, Layer, Unsupported, Violation};
use netframe::ipv4::{IPv4, Ipv4Address, Payload, Protocol};

fn header() -> Vec<u8> {
    vec![
        0x45, // version 4, header length 5
        0b1011_0100, // precedence 5, delay 1, throughput 0, reliability 1, cost 0, reserved 0
        0x28, 0x00, // total length
        0x34, 0x12, // identification
        0b0101_0011, 0xf0, // flags and fragment offset
        0x40, // time to live
        0x06, // protocol
        0xef, 0xbe, // checksum
        192, 168, 1, 2, // source
        10, 0, 0, 7, // destination
    ]
}

#[test]
fn ipv4_address_keeps_its_bytes() {
    assert_eq!(Ipv4Address::from_bytes([127, 0, 0, 1]).octets(), [127, 0, 0, 1]);
}

#[test]
fn protocol_numbers() {
    assert_eq!(Protocol::from_value(6), Protocol::TCP);
    assert_eq!(Protocol::from_value(17), Protocol::UDP);
    assert_eq!(Protocol::from_value(0), Protocol::Unknown);
    assert_eq!(Protocol::from_value(0x92), Protocol::Unknown);
    assert_eq!(Protocol::from_value(0x106), Protocol::Unknown);
    assert_eq!(Protocol::from_value(u32::MAX), Protocol::Unknown);
}

#[test]
fn ipv4_too_short() {
    let bytes = [0x45u8; 19];
    assert_eq!(
        IPv4::from_bytes(&bytes).err(),
        Some(Error::TooShort { layer: Layer::Ipv4, needed: 20, got: 19 })
    );
    assert_eq!(
        IPv4::from_bytes(&[]).err(),
        Some(Error::TooShort { layer: Layer::Ipv4, needed: 20, got: 0 })
    );
}

#[test]
fn ipv4_minimal_header_is_accepted() {
    let mut bytes = [0u8; 20];
    bytes[0] = 0x45;
    let ipv4 = IPv4::from_bytes(&bytes).unwrap();
    assert_eq!(ipv4.version(), 4);
    assert_eq!(ipv4.version_raw(), 4);
    assert_eq!(ipv4.header_length(), 5);
    assert_eq!(ipv4.raw_payload().len(), 2);
}

#[test]
fn ipv4_version_other_than_4_is_refused_whatever_else_holds() {
    for version in 0..16u8 {
        if version == 4 {
            continue;
        }
        for low in [0u8, 4, 5, 15] {
            for second in [0u8, 1, 0xff] {
                let mut bytes = header();
                bytes[0] = (version << 4) | low;
                bytes[1] = second;
                assert_eq!(
                    IPv4::from_bytes(&bytes).err(),
                    Some(Error::StructuralViolation(Violation::VersionMismatch { found: version }))
                );
            }
        }
    }
}

#[test]
fn ipv4_header_length_below_5_is_refused() {
    for words in 0..5u8 {
        let mut bytes = header();
        bytes[0] = 0x40 | words;
        bytes[1] = 0x01;
        assert_eq!(
            IPv4::from_bytes(&bytes).err(),
            Some(Error::StructuralViolation(Violation::HeaderLengthOutOfRange { found: words }))
        );
    }
}

#[test]
fn ipv4_header_length_from_5_to_15_is_accepted() {
    for words in 5..16u8 {
        let mut bytes = header();
        bytes[0] = 0x40 | words;
        assert_eq!(IPv4::from_bytes(&bytes).unwrap().header_length(), words);
    }
}

#[test]
fn ipv4_reserved_bit_is_refused() {
    let mut bytes = header();
    bytes[1] = 0b0000_0001;
    assert_eq!(
        IPv4::from_bytes(&bytes).err(),
        Some(Error::StructuralViolation(Violation::ReservedBitSet))
    );
    bytes[1] = 0xff;
    assert_eq!(
        IPv4::from_bytes(&bytes).err(),
        Some(Error::StructuralViolation(Violation::ReservedBitSet))
    );
}

#[test]
fn ipv4_fields() {
    let bytes = header();
    let ipv4 = IPv4::from_bytes(&bytes).unwrap();
    assert_eq!(ipv4.version(), 4);
    assert_eq!(ipv4.version_raw(), 4);
    assert_eq!(ipv4.header_length(), 5);
    assert_eq!(ipv4.reserved1(), 0);
    assert_eq!(ipv4.cost(), 0);
    assert_eq!(ipv4.reliability(), 1);
    assert_eq!(ipv4.throughput(), 0);
    assert_eq!(ipv4.delay(), 1);
    assert_eq!(ipv4.precedence(), 5);
    assert_eq!(ipv4.total_length(), 0x0028);
    assert_eq!(ipv4.identification(), 0x1234);
    assert_eq!(ipv4.reserved2(), 0);
    assert_eq!(ipv4.df(), 1);
    assert_eq!(ipv4.mf(), 0);
    assert_eq!(ipv4.fragment_offset(), 0x13f0);
    assert_eq!(ipv4.time_to_live(), 0x40);
    assert_eq!(ipv4.protocol(), Protocol::TCP);
    assert_eq!(ipv4.header_checksum(), 0xbeef);
    assert_eq!(ipv4.source_address().octets(), [192, 168, 1, 2]);
    assert_eq!(ipv4.destination_address().octets(), [10, 0, 0, 7]);
}

#[test]
fn ipv4_priority_flags_one_bit_each() {
    for bit in 1..5usize {
        let mut bytes = header();
        bytes[1] = 1u8 << bit;
        let ipv4 = IPv4::from_bytes(&bytes).unwrap();
        let flags = [ipv4.cost(), ipv4.reliability(), ipv4.throughput(), ipv4.delay()];
        let mut expected = [0u8; 4];
        expected[bit - 1] = 1;
        assert_eq!(flags, expected);
        assert_eq!(ipv4.precedence(), 0);
    }
    let mut bytes = header();
    bytes[1] = 0b1110_0000;
    assert_eq!(IPv4::from_bytes(&bytes).unwrap().precedence(), 7);
}

#[test]
fn ipv4_header_flags_stand_in_distinct_bits() {
    let cases = [
        (0b1000_0000u8, [1u8, 0, 0]),
        (0b0100_0000, [0, 1, 0]),
        (0b0010_0000, [0, 0, 1]),
        (0b0001_1111, [0, 0, 0]),
        (0b1110_0000, [1, 1, 1]),
    ];
    for (byte, expected) in cases {
        let mut bytes = header();
        bytes[6] = byte;
        let ipv4 = IPv4::from_bytes(&bytes).unwrap();
        assert_eq!([ipv4.reserved2(), ipv4.df(), ipv4.mf()], expected);
    }
}

#[test]
fn ipv4_fragment_offset_has_thirteen_bits() {
    let mut bytes = header();
    bytes[6] = 0xff;
    bytes[7] = 0xff;
    assert_eq!(IPv4::from_bytes(&bytes).unwrap().fragment_offset(), 0x1fff);
    bytes[6] = 0xe0;
    bytes[7] = 0x00;
    assert_eq!(IPv4::from_bytes(&bytes).unwrap().fragment_offset(), 0);
    bytes[6] = 0x01;
    bytes[7] = 0x02;
    assert_eq!(IPv4::from_bytes(&bytes).unwrap().fragment_offset(), 0x0102);
}

#[test]
fn ipv4_payload_starts_at_14_and_leaves_out_the_last_four_bytes() {
    let mut bytes = header();
    bytes.extend_from_slice(&[0xa1, 0xa2, 0xa3, 0xa4, 0xa5, 0xa6]);
    let ipv4 = IPv4::from_bytes(&bytes).unwrap();
    assert_eq!(ipv4.raw_payload(), &[1, 2, 10, 0, 0, 7, 0xa1, 0xa2]);
}

#[test]
fn ipv4_payload_of_udp_is_not_implemented() {
    let mut bytes = header();
    bytes[9] = 17;
    let ipv4 = IPv4::from_bytes(&bytes).unwrap();
    assert_eq!(ipv4.protocol(), Protocol::UDP);
    assert_eq!(ipv4.payload().err(), Some(Error::Unimplemented(Unsupported::Udp)));
}

#[test]
fn ipv4_payload_of_unknown_protocol_is_not_implemented() {
    for protocol in [0u8, 1, 5, 7, 16, 18, 0x92, 0xff] {
        let mut bytes = header();
        bytes[9] = protocol;
        let ipv4 = IPv4::from_bytes(&bytes).unwrap();
        assert_eq!(ipv4.protocol(), Protocol::Unknown);
        assert_eq!(ipv4.payload().err(), Some(Error::Unimplemented(Unsupported::UnknownProtocol)));
    }
}

#[test]
fn ipv4_payload_too_short_for_tcp() {
    let bytes = header();
    let ipv4 = IPv4::from_bytes(&bytes).unwrap();
    assert_eq!(
        ipv4.payload().err(),
        Some(Error::TooShort { layer: Layer::Tcp, needed: 20, got: 2 })
    );
}

#[test]
fn ipv4_payload_decodes_tcp() {
    let mut bytes = header();
    bytes.truncate(14);
    let mut segment = vec![0u8; 24];
    segment[0] = 0x50;
    segment[12] = 0x05;
    bytes.extend_from_slice(&segment);
    bytes.extend_from_slice(&[0, 0, 0, 0]);
    let ipv4 = IPv4::from_bytes(&bytes).unwrap();
    match ipv4.payload() {
        Ok(Payload::Tcp(tcp)) => {
            assert_eq!(tcp.source_port(), 0x50);
            assert_eq!(tcp.header_size(), 20);
            assert_eq!(tcp.raw_payload().len(), 4);
        }
        Err(e) => panic!("expected a TCP payload, got {:?}", e),
    }
}

#[test]
fn ipv4_payload_hands_on_the_tcp_violation() {
    let mut bytes = header();
    bytes.truncate(14);
    let mut segment = vec![0u8; 20];
    segment[12] = 0x06;
    bytes.extend_from_slice(&segment);
    bytes.extend_from_slice(&[0, 0, 0, 0]);
    let ipv4 = IPv4::from_bytes(&bytes).unwrap();
    assert_eq!(
        ipv4.payload().err(),
        Some(Error::StructuralViolation(Violation::HeaderTooLarge { limit: 20, declared: 24 }))
    );
}

#[test]
fn ipv4_address_text_is_a_dotted_quad() {
    assert_eq!(Ipv4Address::from_bytes([192, 168, 1, 2]).to_text(), "192.168.1.2");
    assert_eq!(Ipv4Address::from_bytes([0, 0, 0, 0]).to_text(), "0.0.0.0");
    assert_eq!(Ipv4Address::from_bytes([255, 100, 99, 10]).to_text(), "255.100.99.10");
    assert_eq!(Ipv4Address::from_bytes([9, 101, 110, 200]).to_text(), "9.101.110.200");
}

#[test]
fn protocol_value_reads_back() {
    for protocol in [Protocol::Unknown, Protocol::TCP, Protocol::UDP] {
        assert_eq!(Protocol::from_value(protocol.value()), protocol);
    }
    assert_eq!(Protocol::TCP.value(), 6);
    assert_eq!(Protocol::UDP.value(), 17);
    assert_eq!(Protocol::Unknown.value(), 0x92);
}
