use netframe::error::{Error, Layer, Unsupported, Violation};
use netframe::ethernet::Ethernet;
use netframe::ipv4::IPv4;
use netframe::tcp::{Tcp, TcpOption};
use netframe::visitor::{Packet, PacketHeader, Printer, Visitor};

const RULE: &str =
    "---------------------------------------------------------------------------------";

fn header(len: u32) -> PacketHeader {
    PacketHeader { ts_sec: 3661, ts_usec: 42, caplen: len, len }
}

fn head(len: u32) -> String {
    format!("---------- Packet [ size {} ] @ 01:01:01.000042 -----------------------------", len)
}

fn segment(options: &[u8], data: &[u8]) -> Vec<u8> {
    assert_eq!(options.len() % 4, 0);
    let mut bytes = vec![
        0x50, 0x00, 0xbb, 0x01, 0x04, 0x03, 0x02, 0x01, 0x0d, 0x0c, 0x0b, 0x0a,
        0xa0 | (5 + options.len() / 4) as u8,
        0b0101_0010,
        0xff, 0x7f, 0xcd, 0xab, 0x02, 0x01,
    ];
    bytes.extend_from_slice(options);
    bytes.extend_from_slice(data);
    bytes
}

fn datagram(protocol: u8, tail: &[u8]) -> Vec<u8> {
    let mut bytes = vec![0x45, 0b1011_0100, 0x28, 0x00, 0x34, 0x12, 0b0101_0011, 0xf0, 0x40];
    bytes.push(protocol);
    bytes.extend_from_slice(&[0xef, 0xbe, 192, 168]);
    bytes.extend_from_slice(tail);
    bytes.extend_from_slice(&[0, 0, 0, 0]);
    bytes
}

fn frame(ether_type: [u8; 2], payload: &[u8]) -> Vec<u8> {
    let mut bytes = vec![1, 2, 3, 4, 5, 6, 10, 11, 12, 13, 14, 255];
    bytes.extend_from_slice(&ether_type);
    bytes.extend_from_slice(payload);
    bytes.extend_from_slice(&[0x78, 0x56, 0x34, 0x12]);
    bytes
}

fn ethernet_report(payload_size: usize, ether_type: &str) -> Vec<String> {
    vec![
        format!("| - Ethernet [ payload size {} ]", payload_size),
        "|    Source                : 10:11:12:13:14:255".to_string(),
        "|    Destination           : 1:2:3:4:5:6".to_string(),
        format!("|    Ether Type            : {}", ether_type),
        "|    Crc                   : 305419896".to_string(),
    ]
}

fn ipv4_report(payload_size: usize, protocol: &str, source: &str, destination: &str) -> Vec<String> {
    vec![
        format!("|- Ipv4 [ payload size {} ]", payload_size),
        "|    Header Length         : 5".to_string(),
        "|    Version               : 4".to_string(),
        "|    Reserved 1            : 0".to_string(),
        "|    Cost                  : 0".to_string(),
        "|    Reliability           : 1".to_string(),
        "|    Throughput            : 0".to_string(),
        "|    Delay                 : 1".to_string(),
        "|    Precedence            : 5".to_string(),
        "|    Total Length          : 40".to_string(),
        "|    Identification        : 4660".to_string(),
        "|    Reserved 2            : 0".to_string(),
        "|    Df                    : 1".to_string(),
        "|    Mf                    : 0".to_string(),
        "|    Fragment_offset       : 5104".to_string(),
        "|    Time To Live          : 64".to_string(),
        format!("|    Protocol              : {}", protocol),
        "|    Header Checksum       : 48879".to_string(),
        format!("|    Source Address        : {}", source),
        format!("|    Destination Address   : {}", destination),
    ]
}

fn tcp_report(payload_size: usize, data_offset: u8, options: &[TcpOption]) -> Vec<String> {
    let mut lines = vec![
        format!("| - Tcp [ payload size {} ]", payload_size),
        "|    Source Port           : 80".to_string(),
        "|    Destination Port      : 443".to_string(),
        "|    Sequence Number       : 16909060".to_string(),
        "|    Acknowledgment Number : 168496141".to_string(),
        "|    Reserved              : 10".to_string(),
        format!("|    Data Offset           : {}", data_offset),
        "|    Cwr                   : 0".to_string(),
        "|    Ece                   : 1".to_string(),
        "|    Urg                   : 0".to_string(),
        "|    Ack                   : 0".to_string(),
        "|    Psh                   : 1".to_string(),
        "|    Rst                   : 0".to_string(),
        "|    Syn                   : 1".to_string(),
        "|    Fin                   : 0".to_string(),
        "|    Window Size           : 32767".to_string(),
        "|    Check Sum             : 43981".to_string(),
        "|    Urgent Pointer        : 258".to_string(),
    ];
    for (i, option) in options.iter().enumerate() {
        lines.push(format!("|    Option[{}]             : {:?}", i, option));
    }
    lines
}

#[test]
fn printer_starts_without_lines() {
    let mut printer = Printer::new();
    assert_eq!(printer.take_lines(), Vec::<String>::new());
}

#[test]
fn printer_reports_raw_bytes() {
    let mut printer = Printer::new();
    assert_eq!(printer.visit_raw_payload(b"abcd"), Ok(()));
    assert_eq!(
        printer.take_lines(),
        vec!["| - Payload  [ size 4 ]".to_string(), "|    61 62 63 64      abcd".to_string()]
    );
    assert_eq!(printer.visit_raw_payload(&[]), Ok(()));
    assert_eq!(printer.take_lines(), vec!["| - Payload  [ size 0 ]".to_string()]);
    assert_eq!(printer.take_lines(), Vec::<String>::new());
}

#[test]
fn printer_reports_a_tcp_segment() {
    let options = [0x02, 0xb4, 0x05, 0x01, 0x03, 0x08, 0x04, 0x00];
    let bytes = segment(&options, b"hi");
    let tcp = Tcp::from_bytes(&bytes).unwrap();
    let mut printer = Printer::new();
    assert_eq!(printer.visit_tcp(&tcp), Ok(()));
    let mut expected = tcp_report(
        2,
        7,
        &[
            TcpOption::MaximumSegmentSize { size: 1460 },
            TcpOption::NoOperation,
            TcpOption::WindowScale { scale: 8 },
            TcpOption::SackPermitted,
        ],
    );
    expected.push("| - Payload  [ size 2 ]".to_string());
    expected.push("|    68 69      hi".to_string());
    assert_eq!(printer.take_lines(), expected);
}

#[test]
fn printer_writes_options_as_their_names_and_fields() {
    let all = [
        TcpOption::NoOperation,
        TcpOption::MaximumSegmentSize { size: 65_535 },
        TcpOption::WindowScale { scale: 0 },
        TcpOption::SackPermitted,
        TcpOption::Sack { begin: 1, end: u32::MAX },
        TcpOption::Sack2 {},
        TcpOption::Sack3 {},
        TcpOption::Sack4 {},
        TcpOption::Timestamp { timestamp: 4_000_000_000, echo: 7 },
    ];
    for option in all {
        assert_eq!(option.to_text(), format!("{:?}", option));
    }
}

#[test]
fn printer_reports_a_whole_frame() {
    let inner = segment(&[], b"hello, world");
    let bytes = frame([0x08, 0x00], &datagram(6, &inner));
    let packet = Packet { header: header(bytes.len() as u32), data: &bytes };
    let mut printer = Printer::new();
    assert_eq!(printer.visit_packet(&packet), Ok(()));
    let mut expected = vec![head(bytes.len() as u32)];
    expected.extend(ethernet_report(bytes.len() - 18, "IPv4"));
    expected.extend(ipv4_report(inner.len(), "TCP", "192.168.80.0", "187.1.4.3"));
    expected.extend(tcp_report(12, 5, &[]));
    expected.push("| - Payload  [ size 12 ]".to_string());
    expected.push("|    68 65 6c 6c  6f 2c 20 77  6f 72 6c 64      hello,.world".to_string());
    expected.push(RULE.to_string());
    assert_eq!(printer.take_lines(), expected);
}

#[test]
fn printer_reports_up_to_the_failure() {
    let bytes = frame([0x08, 0x00], &datagram(6, &[1, 2]));
    assert_eq!(bytes.len(), 38);
    let packet = Packet { header: header(38), data: &bytes };
    let mut printer = Printer::new();
    assert_eq!(
        printer.visit_packet(&packet),
        Err(Error::TooShort { layer: Layer::Tcp, needed: 20, got: 2 })
    );
    let mut expected = vec![head(38)];
    expected.extend(ethernet_report(20, "IPv4"));
    expected.extend(ipv4_report(2, "TCP", "192.168.1.2", "0.0.0.0"));
    expected.push(RULE.to_string());
    assert_eq!(printer.take_lines(), expected);
}

#[test]
fn printer_reports_a_frame_of_another_protocol() {
    let bytes = frame([0x08, 0x06], &[0u8; 28]);
    let packet = Packet { header: header(46), data: &bytes };
    let mut printer = Printer::new();
    assert_eq!(
        printer.visit_packet(&packet),
        Err(Error::Unimplemented(Unsupported::EthernetPayload))
    );
    let mut expected = vec![head(46)];
    expected.extend(ethernet_report(28, "ARP"));
    expected.push(RULE.to_string());
    assert_eq!(printer.take_lines(), expected);
}

#[test]
fn printer_reports_an_invalid_datagram_by_the_frame_alone() {
    let mut inner = datagram(6, &[0u8; 30]);
    inner[0] = 0x46;
    inner[1] = 0x01;
    let bytes = frame([0x08, 0x00], &inner);
    let ethernet = Ethernet::from_bytes(&bytes).unwrap();
    let mut printer = Printer::new();
    assert_eq!(
        printer.visit_ethernet(&ethernet),
        Err(Error::StructuralViolation(Violation::ReservedBitSet))
    );
    assert_eq!(printer.take_lines(), ethernet_report(bytes.len() - 18, "IPv4"));
}

#[test]
fn printer_reports_a_datagram_of_another_protocol() {
    let bytes = datagram(17, &[1, 2, 3, 4, 5, 6, 7, 8]);
    let ipv4 = IPv4::from_bytes(&bytes).unwrap();
    let mut printer = Printer::new();
    assert_eq!(printer.visit_ipv4(&ipv4), Err(Error::Unimplemented(Unsupported::Udp)));
    assert_eq!(printer.take_lines(), ipv4_report(bytes.len() - 18, "UDP", "192.168.1.2", "3.4.5.6"));
}

#[test]
fn printer_reports_a_capture_that_is_no_frame() {
    let bytes = [0u8; 10];
    let packet = Packet {
        header: PacketHeader { ts_sec: 0, ts_usec: -5, caplen: 10, len: 10 },
        data: &bytes,
    };
    let mut printer = Printer::new();
    assert_eq!(
        printer.visit_packet(&packet),
        Err(Error::TooShort { layer: Layer::Ethernet, needed: 18, got: 10 })
    );
    assert_eq!(
        printer.take_lines(),
        vec![
            "---------- Packet [ size 10 ] @ <invalid timestamp> -----------------------------"
                .to_string(),
            RULE.to_string(),
        ]
    );
}

#[test]
fn printer_keeps_reporting_after_a_failure() {
    let short = [0u8; 10];
    let good = frame([0x08, 0x06], &[]);
    let mut printer = Printer::new();
    assert!(printer.visit_packet(&Packet { header: header(10), data: &short }).is_err());
    assert!(printer.visit_packet(&Packet { header: header(18), data: &good }).is_err());
    let lines = printer.take_lines();
    assert_eq!(lines.len(), 2 + 2 + 5);
    assert_eq!(lines[0], head(10));
    assert_eq!(lines[1], RULE);
    assert_eq!(lines[2], head(18));
    assert_eq!(lines[8], RULE);
}
