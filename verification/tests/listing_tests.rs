use netframe::ethernet::Ethernet;
use netframe::ipv4::IPv4;
use netframe::tcp::Tcp;

fn segment(options: &[u8], data: &[u8]) -> Vec<u8> {
    let mut bytes = vec![
        0x50, 0x00, 0xbb, 0x01, 0x04, 0x03, 0x02, 0x01, 0x0d, 0x0c, 0x0b, 0x0a,
        0xa0 | (5 + options.len() / 4) as u8,
        0b1000_0001,
        0xff, 0x7f, 0xcd, 0xab, 0x02, 0x01,
    ];
    bytes.extend_from_slice(options);
    bytes.extend_from_slice(data);
    bytes
}

fn datagram(protocol: u8, tail: &[u8]) -> Vec<u8> {
    let mut bytes = vec![0x45, 0b1011_0100, 0x28, 0x00, 0x34, 0x12, 0b0101_0011, 0xf0, 0x40];
    bytes.push(protocol);
    bytes.extend_from_slice(&[0xef, 0xbe, 192, 168]);
    bytes.extend_from_slice(tail);
    bytes.extend_from_slice(&[0, 0, 0, 0]);
    bytes
}

fn frame(ether_type: [u8; 2], payload: &[u8]) -> Vec<u8> {
    let mut bytes = vec![1, 2, 3, 4, 5, 6, 10, 11, 12, 13, 14, 255];
    bytes.extend_from_slice(&ether_type);
    bytes.extend_from_slice(payload);
    bytes.extend_from_slice(&[0x78, 0x56, 0x34, 0x12]);
    bytes
}

fn tcp_listing(data_offset: u8, options: &[&str]) -> String {
    let mut text = String::new();
    text.push_str("    Tcp\n");
    text.push_str("        source_port:           80\n");
    text.push_str("        destination_port:      443\n");
    text.push_str("        sequence_number:       16909060\n");
    text.push_str("        acknowledgment_number: 168496141\n");
    text.push_str("        reserved:              10\n");
    text.push_str(&format!("        data_offset:           {}\n", data_offset));
    text.push_str("        cwr:                   1\n");
    text.push_str("        ece:                   0\n");
    text.push_str("        urg:                   0\n");
    text.push_str("        ack:                   0\n");
    text.push_str("        psh:                   0\n");
    text.push_str("        rst:                   0\n");
    text.push_str("        syn:                   0\n");
    text.push_str("        fin:                   1\n");
    text.push_str("        window_size:           32767\n");
    text.push_str("        check_sum:             43981\n");
    text.push_str("        urgent_pointer:        258\n");
    for (i, option) in options.iter().enumerate() {
        text.push_str(&format!("        option[{}]:        {}\n", i, option));
    }
    text
}

fn ipv4_listing(protocol: &str, source: &str, destination: &str, payload: &str) -> String {
    let mut text = String::new();
    text.push_str("    Ipv4\n");
    text.push_str("        header_length:       5\n");
    text.push_str("        version:             4\n");
    text.push_str("        reserved1:           0\n");
    text.push_str("        cost:                0\n");
    text.push_str("        reliability:         1\n");
    text.push_str("        throughput:          0\n");
    text.push_str("        delay:               1\n");
    text.push_str("        precedence:          5\n");
    text.push_str("        total_length:        40\n");
    text.push_str("        identification:      4660\n");
    text.push_str("        reserved2:           0\n");
    text.push_str("        df:                  1\n");
    text.push_str("        mf:                  0\n");
    text.push_str("        fragment_offset:     5104\n");
    text.push_str("        time_to_live:        64\n");
    text.push_str(&format!("        protocol:            {}\n", protocol));
    text.push_str("        header_checksum:     48879\n");
    text.push_str(&format!("        source_address:      {}\n", source));
    text.push_str(&format!("        destination_address: {}\n", destination));
    text.push_str(&format!("        payload: {}\n", payload));
    text
}

fn ethernet_listing(ether_type: &str, payload: &str) -> String {
    let mut text = String::new();
    text.push_str("Ethernet\n");
    text.push_str("    Source:      10:11:12:13:14:255\n");
    text.push_str("    Destination: 1:2:3:4:5:6\n");
    text.push_str(&format!("    Ether Type:  {}\n", ether_type));
    text.push_str(&format!("    Payload:     {}\n", payload));
    text.push_str("    Crc:         305419896\n");
    text
}

#[test]
fn tcp_segment_as_text() {
    let bytes = segment(&[], b"xyz");
    assert_eq!(Tcp::from_bytes(&bytes).unwrap().to_text(), tcp_listing(5, &[]));
}

#[test]
fn tcp_segment_with_options_as_text() {
    let bytes = segment(&[0x02, 0xb4, 0x05, 0x04, 0x08, 1, 0, 0, 0, 2, 0, 0, 0, 0x01, 0x00, 0x01], b"");
    assert_eq!(
        Tcp::from_bytes(&bytes).unwrap().to_text(),
        tcp_listing(
            9,
            &[
                "MaximumSegmentSize { size: 1460 }",
                "SackPermitted",
                "Timestamp { timestamp: 1, echo: 2 }",
                "NoOperation",
            ]
        )
    );
}

#[test]
fn ipv4_datagram_as_text() {
    let inner = segment(&[], b"xyz");
    let bytes = datagram(6, &inner);
    let payload = format!("Ok(Tcp({}))", tcp_listing(5, &[]));
    assert_eq!(
        IPv4::from_bytes(&bytes).unwrap().to_text(),
        ipv4_listing("TCP", "192.168.80.0", "187.1.4.3", &payload)
    );
}

#[test]
fn ipv4_datagram_without_a_segment_as_text() {
    let bytes = datagram(17, &[9, 8, 7, 6, 5, 4]);
    assert_eq!(
        IPv4::from_bytes(&bytes).unwrap().to_text(),
        ipv4_listing("UDP", "192.168.9.8", "7.6.5.4", "Err(UDP not implemented)")
    );
    let bytes = datagram(6, &[9, 8]);
    assert_eq!(
        IPv4::from_bytes(&bytes).unwrap().to_text(),
        ipv4_listing(
            "TCP",
            "192.168.9.8",
            "0.0.0.0",
            "Err(Tcp data too small, expected at least 20, got 2)"
        )
    );
    let bytes = datagram(200, &[9, 8]);
    assert_eq!(
        IPv4::from_bytes(&bytes).unwrap().to_text(),
        ipv4_listing("Unknown", "192.168.9.8", "0.0.0.0", "Err(Unknown protocol)")
    );
}

#[test]
fn ethernet_frame_as_text() {
    let inner = segment(&[], b"xyz");
    let bytes = frame([0x08, 0x00], &datagram(6, &inner));
    let segment_text = format!("Ok(Tcp({}))", tcp_listing(5, &[]));
    let payload =
        format!("Ok(IPv4({}))", ipv4_listing("TCP", "192.168.80.0", "187.1.4.3", &segment_text));
    assert_eq!(Ethernet::from_bytes(&bytes).unwrap().to_text(), ethernet_listing("IPv4", &payload));
}

#[test]
fn ethernet_frame_without_a_datagram_as_text() {
    let bytes = frame([0x86, 0xDD], &[0u8; 40]);
    assert_eq!(
        Ethernet::from_bytes(&bytes).unwrap().to_text(),
        ethernet_listing("IPv6", "Ok(Invalid)")
    );
    let bytes = frame([0x08, 0x00], &[0u8; 40]);
    assert_eq!(
        Ethernet::from_bytes(&bytes).unwrap().to_text(),
        ethernet_listing("IPv4", "Err(Version must be 4)")
    );
    let bytes = frame([0x12, 0x34], &[]);
    assert_eq!(
        Ethernet::from_bytes(&bytes).unwrap().to_text(),
        ethernet_listing("Unknown", "Ok(Invalid)")
    );
}
