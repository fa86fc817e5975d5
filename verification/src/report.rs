//! The lines of text that report a captured frame, layer by layer.

use crate::dump::{dump_line, line_bytes, line_count};
use crate::endian::le_value;
use crate::error::{Error, Unsupported};
use crate::ethernet;
use crate::ipv4;
use crate::tcp::{self, TcpOption};
use crate::text::{decimal, joined};
use crate::timestamp::capture_time_label;
use crate::visitor::PacketHeader;
use vstd::prelude::*;

verus! {

/// The lines of a dump of `bytes` from line `k` on.
pub open spec fn dump_lines(bytes: Seq<u8>, k: int) -> Seq<Seq<char>>
    decreases line_count(bytes.len() as int) - k,
{
    if k < 0 || k >= line_count(bytes.len() as int) {
        Seq::empty()
    } else {
        seq![dump_line(line_bytes(bytes, k))] + dump_lines(bytes, k + 1)
    }
}

/// The lines that report bytes which no layer claims: their number, and
/// their dump.
pub open spec fn raw_lines(bytes: Seq<u8>) -> Seq<Seq<char>> {
    seq!["| - Payload  [ size "@ + decimal(bytes.len()) + " ]"@] + dump_lines(bytes, 0)
}

/// The lines that report the options from the `k`-th on, numbered from `k`.
pub open spec fn option_lines(options: Seq<TcpOption>, k: int) -> Seq<Seq<char>>
    decreases options.len() - k,
{
    if k < 0 || k >= options.len() {
        Seq::empty()
    } else {
        seq![
            "|    Option["@ + decimal(k as nat) + "]             : "@ + options[k].text(),
        ] + option_lines(options, k + 1)
    }
}

/// The lines that report the fields of a TCP segment.
pub open spec fn tcp_fields(segment: Seq<u8>) -> Seq<Seq<char>> {
    seq![
        "| - Tcp [ payload size "@ + decimal((segment.len() - tcp::header_len(segment)) as nat)
            + " ]"@,
        "|    Source Port           : "@ + decimal(le_value(segment, 0, 2)),
        "|    Destination Port      : "@ + decimal(le_value(segment, 2, 2)),
        "|    Sequence Number       : "@ + decimal(le_value(segment, 4, 4)),
        "|    Acknowledgment Number : "@ + decimal(le_value(segment, 8, 4)),
        "|    Reserved              : "@ + decimal((segment[12] / 16) as nat),
        "|    Data Offset           : "@ + decimal((segment[12] % 16) as nat),
        "|    Cwr                   : "@ + decimal((segment[13] % 2) as nat),
        "|    Ece                   : "@ + decimal((segment[13] / 2 % 2) as nat),
        "|    Urg                   : "@ + decimal((segment[13] / 4 % 2) as nat),
        "|    Ack                   : "@ + decimal((segment[13] / 8 % 2) as nat),
        "|    Psh                   : "@ + decimal((segment[13] / 16 % 2) as nat),
        "|    Rst                   : "@ + decimal((segment[13] / 32 % 2) as nat),
        "|    Syn                   : "@ + decimal((segment[13] / 64 % 2) as nat),
        "|    Fin                   : "@ + decimal((segment[13] / 128) as nat),
        "|    Window Size           : "@ + decimal(le_value(segment, 14, 2)),
        "|    Check Sum             : "@ + decimal(le_value(segment, 16, 2)),
        "|    Urgent Pointer        : "@ + decimal(le_value(segment, 18, 2)),
    ]
}

/// The lines that report a TCP segment: its fields, its options, and the
/// bytes behind its header.
pub open spec fn tcp_lines(segment: Seq<u8>) -> Seq<Seq<char>> {
    tcp_fields(segment) + option_lines(tcp::options_from(tcp::option_bytes(segment), 0), 0)
        + raw_lines(segment.subrange(tcp::header_len(segment), segment.len() as int))
}

/// The lines that report the fields of an IPv4 datagram.
pub open spec fn ipv4_fields(datagram: Seq<u8>) -> Seq<Seq<char>> {
    seq![
        "|- Ipv4 [ payload size "@ + decimal((datagram.len() - 18) as nat) + " ]"@,
        "|    Header Length         : "@ + decimal((datagram[0] % 16) as nat),
        "|    Version               : "@ + decimal(4),
        "|    Reserved 1            : "@ + decimal((datagram[1] % 2) as nat),
        "|    Cost                  : "@ + decimal((datagram[1] / 2 % 2) as nat),
        "|    Reliability           : "@ + decimal((datagram[1] / 4 % 2) as nat),
        "|    Throughput            : "@ + decimal((datagram[1] / 8 % 2) as nat),
        "|    Delay                 : "@ + decimal((datagram[1] / 16 % 2) as nat),
        "|    Precedence            : "@ + decimal((datagram[1] / 32) as nat),
        "|    Total Length          : "@ + decimal(le_value(datagram, 2, 2)),
        "|    Identification        : "@ + decimal(le_value(datagram, 4, 2)),
        "|    Reserved 2            : "@ + decimal((datagram[6] / 128) as nat),
        "|    Df                    : "@ + decimal((datagram[6] / 64 % 2) as nat),
        "|    Mf                    : "@ + decimal((datagram[6] / 32 % 2) as nat),
        "|    Fragment_offset       : "@ + decimal(((datagram[6] % 32) * 256 + datagram[7]) as nat),
        "|    Time To Live          : "@ + decimal(datagram[8] as nat),
        "|    Protocol              : "@ + ipv4::Protocol::spec_from_value(
            datagram[9] as u32,
        ).name_text(),
        "|    Header Checksum       : "@ + decimal(le_value(datagram, 10, 2)),
        "|    Source Address        : "@ + joined(datagram.subrange(12, 16), seq!['.']),
        "|    Destination Address   : "@ + joined(datagram.subrange(16, 20), seq!['.']),
    ]
}

/// The lines that report an IPv4 datagram: its fields and, where its
/// payload is a TCP segment, that segment.
pub open spec fn ipv4_lines(datagram: Seq<u8>) -> Seq<Seq<char>> {
    if ipv4::payload_failure(datagram) is None {
        ipv4_fields(datagram) + tcp_lines(ipv4::payload_bytes(datagram))
    } else {
        ipv4_fields(datagram)
    }
}

/// What reporting an IPv4 datagram ends in: the reason why its payload is
/// no TCP segment, or success.
pub open spec fn ipv4_outcome(datagram: Seq<u8>) -> Result<(), Error> {
    match ipv4::payload_failure(datagram) {
        Some(e) => Err(e),
        None => Ok(()),
    }
}

/// The lines that report the fields of an Ethernet frame.
pub open spec fn ethernet_fields(frame: Seq<u8>) -> Seq<Seq<char>> {
    seq![
        "| - Ethernet [ payload size "@ + decimal((frame.len() - 18) as nat) + " ]"@,
        "|    Source                : "@ + joined(frame.subrange(6, 12), seq![':']),
        "|    Destination           : "@ + joined(frame.subrange(0, 6), seq![':']),
        "|    Ether Type            : "@ + ethernet::ether_type_of(frame).name_text(),
        "|    Crc                   : "@ + decimal(le_value(frame, frame.len() - 4, 4)),
    ]
}

/// Whether the payload of a frame is an IPv4 datagram.
pub open spec fn carries_ipv4(frame: Seq<u8>) -> bool {
    ethernet::ether_type_of(frame) == ethernet::EtherType::IPv4 && ipv4::rejection(
        ethernet::payload_bytes(frame),
    ) is None
}

/// The lines that report an Ethernet frame: its fields and, where its
/// payload is an IPv4 datagram, that datagram.
pub open spec fn ethernet_lines(frame: Seq<u8>) -> Seq<Seq<char>> {
    if carries_ipv4(frame) {
        ethernet_fields(frame) + ipv4_lines(ethernet::payload_bytes(frame))
    } else {
        ethernet_fields(frame)
    }
}

/// What reporting an Ethernet frame ends in: the first failure met on the
/// way down to the TCP segment, or success.
pub open spec fn ethernet_outcome(frame: Seq<u8>) -> Result<(), Error> {
    if ethernet::ether_type_of(frame) != ethernet::EtherType::IPv4 {
        Err(Error::Unimplemented(Unsupported::EthernetPayload))
    } else {
        match ipv4::rejection(ethernet::payload_bytes(frame)) {
            Some(e) => Err(e),
            None => ipv4_outcome(ethernet::payload_bytes(frame)),
        }
    }
}

/// The line that opens the report of a captured frame.
pub open spec fn packet_head(header: PacketHeader) -> Seq<char> {
    "---------- Packet [ size "@ + decimal(header.len as nat) + " ] @ "@ + capture_time_label(
        header.ts_sec,
        header.ts_usec,
    ) + " -----------------------------"@
}

/// The line that closes the report of a captured frame.
pub open spec fn packet_rule() -> Seq<char> {
    "---------------------------------------------------------------------------------"@
}

/// The lines between the opening and the closing line of a report.
pub open spec fn packet_body(bytes: Seq<u8>) -> Seq<Seq<char>> {
    if ethernet::rejection(bytes) is None {
        ethernet_lines(bytes)
    } else {
        Seq::empty()
    }
}

/// The lines that report a captured frame.
pub open spec fn packet_lines(header: PacketHeader, bytes: Seq<u8>) -> Seq<Seq<char>> {
    seq![packet_head(header)] + packet_body(bytes) + seq![packet_rule()]
}

/// What reporting a captured frame ends in: the first failure met on the
/// way down to the TCP segment, or success.
pub open spec fn packet_outcome(bytes: Seq<u8>) -> Result<(), Error> {
    match ethernet::rejection(bytes) {
        Some(e) => Err(e),
        None => ethernet_outcome(bytes),
    }
}

/// Where a frame carries an IPv4 datagram that carries TCP, the reason why
/// the payload of the datagram is no TCP segment is what reporting the
/// frame ends in, and what reporting the capture ends in.
pub proof fn lemma_tcp_failure_surfaces(frame: Seq<u8>, e: Error)
    requires
        ethernet::rejection(frame) is None,
        carries_ipv4(frame),
        ipv4::Protocol::spec_from_value(ethernet::payload_bytes(frame)[9] as u32)
            == ipv4::Protocol::TCP,
        tcp::rejection(ipv4::payload_bytes(ethernet::payload_bytes(frame))) == Some(e),
    ensures
        ipv4_outcome(ethernet::payload_bytes(frame)) == Err::<(), Error>(e),
        ethernet_outcome(frame) == Err::<(), Error>(e),
        packet_outcome(frame) == Err::<(), Error>(e),
{
}

/// Reporting a capture succeeds exactly if every layer down to the TCP
/// segment can be decoded.
pub proof fn lemma_outcome_ok(bytes: Seq<u8>)
    ensures
        packet_outcome(bytes) is Ok <==> {
            &&& ethernet::rejection(bytes) is None
            &&& carries_ipv4(bytes)
            &&& ipv4::Protocol::spec_from_value(ethernet::payload_bytes(bytes)[9] as u32)
                == ipv4::Protocol::TCP
            &&& tcp::rejection(ipv4::payload_bytes(ethernet::payload_bytes(bytes))) is None
        },
{
}

/// The report of a capture opens with the opening line and closes with the
/// closing line, whatever lies between.
pub proof fn lemma_report_is_framed(header: PacketHeader, bytes: Seq<u8>)
    ensures
        packet_lines(header, bytes).len() >= 2,
        packet_lines(header, bytes).first() == packet_head(header),
        packet_lines(header, bytes).last() == packet_rule(),
{
}

} // verus!
