//! A view of an IPv4 datagram.

use crate::endian::{be2leu16, be2leu8, le_value, lemma_byte_fields};
use crate::error::{Error, Layer, Unsupported, Violation};
use crate::tcp;
use crate::text::{field, join_decimal, joined, push_field, push_text_field, text_field};
use core::ops::Range;
use vstd::prelude::*;
use vstd::string::StringExecFns;

verus! {

/// The length of an IPv4 header without options.
pub const MIN_HEADER_SIZE: usize = 20;

/// Where the payload of a datagram starts.
pub const PAYLOAD_OFFSET: usize = 14;

/// The number of bytes at the end of a datagram that its payload leaves out.
pub const TRAILER_SIZE: usize = 4;

/// An IPv4 address: four bytes in the order of the header.
#[derive(Debug, Copy, Clone)]
pub struct Ipv4Address {
    data: [u8; 4],
}

impl Ipv4Address {
    /// The four bytes of the address.
    pub closed spec fn view(&self) -> Seq<u8> {
        self.data@
    }

    /// The address that `bytes` spell out.
    pub fn from_bytes(bytes: [u8; 4]) -> (r: Self)
        ensures
            r@ == bytes@,
    {
        Self { data: bytes }
    }

    /// The four bytes of the address, first byte first.
    pub fn octets(&self) -> (r: [u8; 4])
        ensures
            r@ == self@,
    {
        self.data
    }

    /// The address as a dotted quad: its bytes in decimal with dots between.
    pub fn to_text(&self) -> (r: String)
        ensures
            r@ == joined(self@, seq!['.']),
    {
        proof {
            reveal_strlit(".");
        }
        assert("."@ =~= seq!['.']);
        join_decimal(self.data.as_slice(), ".")
    }
}

/// The protocol of the payload of a datagram.
#[derive(Debug, Clone, Copy, PartialEq, Eq, Structural)]
pub enum Protocol {
    Unknown,
    TCP,
    UDP,
}

impl Protocol {
    /// The protocol that a protocol number stands for.
    pub open spec fn spec_from_value(value: u32) -> Protocol {
        if value == 6 {
            Protocol::TCP
        } else if value == 17 {
            Protocol::UDP
        } else {
            Protocol::Unknown
        }
    }

    /// The number that stands for a protocol; `Unknown` has a number that
    /// is assigned to no protocol.
    pub open spec fn spec_value(self) -> u32 {
        match self {
            Protocol::Unknown => 0x92,
            Protocol::TCP => 6,
            Protocol::UDP => 17,
        }
    }

    /// Reading back the number of a protocol yields that protocol.
    pub proof fn lemma_value_round_trip(self)
        ensures
            Self::spec_from_value(self.spec_value()) == self,
    {
    }

    /// The number that stands for the protocol.
    pub fn value(&self) -> (r: u32)
        ensures
            r == self.spec_value(),
    {
        match self {
            Protocol::Unknown => 0x92,
            Protocol::TCP => 6,
            Protocol::UDP => 17,
        }
    }

    /// The name of the protocol.
    pub open spec fn name_text(self) -> Seq<char> {
        match self {
            Protocol::Unknown => "Unknown"@,
            Protocol::TCP => "TCP"@,
            Protocol::UDP => "UDP"@,
        }
    }

    /// The name of the protocol.
    pub fn name(&self) -> (r: String)
        ensures
            r@ == self.name_text(),
    {
        match self {
            Protocol::Unknown => String::from_str("Unknown"),
            Protocol::TCP => String::from_str("TCP"),
            Protocol::UDP => String::from_str("UDP"),
        }
    }

    /// The protocol that `value` stands for; `Unknown` for a number that
    /// stands for neither TCP nor UDP.
    pub fn from_value(value: u32) -> (r: Self)
        ensures
            r == Self::spec_from_value(value),
    {
        match value {
            6 => Self::TCP,
            17 => Self::UDP,
            _ => Self::Unknown,
        }
    }
}

/// The decoded payload of a datagram.
#[derive(Debug, Clone, Copy)]
pub enum Payload<'a> {
    Tcp(tcp::Tcp<'a>),
}

/// The first reason for which `bytes` are refused as an IPv4 datagram, if
/// there is one. The checks are made in this order: the length, the version, the
/// header length, the reserved bit.
pub open spec fn rejection(bytes: Seq<u8>) -> Option<Error> {
    if bytes.len() < MIN_HEADER_SIZE {
        Some(
            Error::TooShort {
                layer: Layer::Ipv4,
                needed: MIN_HEADER_SIZE,
                got: bytes.len() as usize,
            },
        )
    } else if version_nibble(bytes) != 4 {
        Some(Error::StructuralViolation(Violation::VersionMismatch { found: version_nibble(bytes) }))
    } else if header_words(bytes) < 5 || header_words(bytes) > 20 {
        Some(
            Error::StructuralViolation(
                Violation::HeaderLengthOutOfRange { found: header_words(bytes) },
            ),
        )
    } else if bytes[1] % 2 != 0 {
        Some(Error::StructuralViolation(Violation::ReservedBitSet))
    } else {
        None
    }
}

/// The version that a datagram declares: the high nibble of its first byte.
pub open spec fn version_nibble(bytes: Seq<u8>) -> u8 {
    bytes[0] / 16
}

/// The header length in 32-bit words that a datagram declares: the low
/// nibble of its first byte.
pub open spec fn header_words(bytes: Seq<u8>) -> u8 {
    bytes[0] % 16
}

/// The bytes of a datagram that are handed to the next layer.
pub open spec fn payload_bytes(bytes: Seq<u8>) -> Seq<u8> {
    bytes.subrange(PAYLOAD_OFFSET as int, bytes.len() - TRAILER_SIZE)
}

/// The reason why the payload of a valid datagram cannot be decoded, if
/// there is one: a protocol other than TCP, or bytes that are no TCP segment.
pub open spec fn payload_failure(bytes: Seq<u8>) -> Option<Error> {
    match Protocol::spec_from_value(bytes[9] as u32) {
        Protocol::TCP => tcp::rejection(payload_bytes(bytes)),
        Protocol::UDP => Some(Error::Unimplemented(Unsupported::Udp)),
        Protocol::Unknown => Some(Error::Unimplemented(Unsupported::UnknownProtocol)),
    }
}

/// Whether `payload` is what the payload of a datagram decodes to, where it
/// can be decoded: a view of the payload bytes as a TCP segment.
pub open spec fn decoded_payload(bytes: Seq<u8>, payload: Payload) -> bool {
    payload matches Payload::Tcp(segment) && segment@ == payload_bytes(bytes)
}

/// A datagram with a version other than 4 is refused for that reason,
/// whatever its other fields hold.
pub proof fn lemma_version_decides(bytes: Seq<u8>)
    requires
        bytes.len() >= MIN_HEADER_SIZE,
        version_nibble(bytes) != 4,
    ensures
        rejection(bytes) == Some(
            Error::StructuralViolation(Violation::VersionMismatch { found: version_nibble(bytes) }),
        ),
        rejection(bytes).unwrap().is_structural(),
{
}

/// A header length is a nibble and so never above 15: the only header
/// lengths refused are those below 5.
pub proof fn lemma_header_words_range(bytes: Seq<u8>)
    ensures
        header_words(bytes) <= 15,
        bytes.len() >= MIN_HEADER_SIZE && version_nibble(bytes) == 4 ==> (rejection(bytes) matches Some(
            Error::StructuralViolation(Violation::HeaderLengthOutOfRange { .. }),
        ) <==> header_words(bytes) < 5),
{
}

/// The payload of a datagram as text: the segment it decodes to, or the
/// reason why there is none.
pub open spec fn payload_listing(datagram: Seq<u8>) -> Seq<char> {
    match payload_failure(datagram) {
        Some(e) => "Err("@ + e.message_text() + ")"@,
        None => "Ok(Tcp("@ + tcp::listing(payload_bytes(datagram)) + "))"@,
    }
}

/// A datagram as text: a line for each of its fields, and its payload.
pub open spec fn listing(datagram: Seq<u8>) -> Seq<char> {
    "    Ipv4\n"@ + field("        header_length:       "@, (datagram[0] % 16) as nat) + field(
        "        version:             "@,
        4,
    ) + field("        reserved1:           "@, (datagram[1] % 2) as nat) + field(
        "        cost:                "@,
        (datagram[1] / 2 % 2) as nat,
    ) + field("        reliability:         "@, (datagram[1] / 4 % 2) as nat) + field(
        "        throughput:          "@,
        (datagram[1] / 8 % 2) as nat,
    ) + field("        delay:               "@, (datagram[1] / 16 % 2) as nat) + field(
        "        precedence:          "@,
        (datagram[1] / 32) as nat,
    ) + field("        total_length:        "@, le_value(datagram, 2, 2)) + field(
        "        identification:      "@,
        le_value(datagram, 4, 2),
    ) + field("        reserved2:           "@, (datagram[6] / 128) as nat) + field(
        "        df:                  "@,
        (datagram[6] / 64 % 2) as nat,
    ) + field("        mf:                  "@, (datagram[6] / 32 % 2) as nat) + field(
        "        fragment_offset:     "@,
        ((datagram[6] % 32) * 256 + datagram[7]) as nat,
    ) + field("        time_to_live:        "@, datagram[8] as nat) + text_field(
        "        protocol:            "@,
        Protocol::spec_from_value(datagram[9] as u32).name_text(),
    ) + field("        header_checksum:     "@, le_value(datagram, 10, 2)) + text_field(
        "        source_address:      "@,
        joined(datagram.subrange(12, 16), seq!['.']),
    ) + text_field(
        "        destination_address: "@,
        joined(datagram.subrange(16, 20), seq!['.']),
    ) + text_field("        payload: "@, payload_listing(datagram))
}

/// An IPv4 datagram, read in place.
#[derive(Debug, Clone, Copy)]
pub struct IPv4<'a> {
    data: &'a [u8],
}

impl<'a> IPv4<'a> {
    // The places of the fields, in bits from the start of the header.
    pub const VERSION_BITS: Range<usize> = 0..4;

    pub const HEADER_LENGTH_BITS: Range<usize> = 4..8;

    pub const DSCP_BITS: Range<usize> = 8..14;

    pub const ECN_BITS: Range<usize> = 14..16;

    pub const TOTAL_LENGTH_BITS: Range<usize> = 16..32;

    pub const IDENTIFICATION_BITS: Range<usize> = 32..48;

    pub const FLAGS_BITS: Range<usize> = 48..51;

    pub const FRAGMENT_OFFSET_BITS: Range<usize> = 51..64;

    pub const TTL_BITS: Range<usize> = 64..72;

    pub const PROTOCOL_BITS: Range<usize> = 72..80;

    pub const HEADER_CHECKSUM_BITS: Range<usize> = 80..96;

    pub const SOURCE_ADDRESS_BITS: Range<usize> = 96..128;

    pub const DESTINATION_ADDRESS_BITS: Range<usize> = 128..160;

    #[verifier::type_invariant]
    spec fn inv(&self) -> bool {
        rejection(self.data@) is None
    }

    /// The bytes of the datagram.
    pub closed spec fn view(&self) -> Seq<u8> {
        self.data@
    }

    /// A view of `data` as an IPv4 datagram; fails with the first reason
    /// for which it is refused.
    pub fn from_bytes(data: &'a [u8]) -> (r: Result<Self, Error>)
        ensures
            match rejection(data@) {
                Some(e) => r == Err::<Self, Error>(e),
                None => r matches Ok(datagram) && datagram@ == data@,
            },
    {
        if data.len() < MIN_HEADER_SIZE {
            return Err(
                Error::TooShort { layer: Layer::Ipv4, needed: MIN_HEADER_SIZE, got: data.len() },
            );
        }
        proof {
            lemma_byte_fields(data@[0]);
            lemma_byte_fields(data@[1]);
        }
        let version = (be2leu8(data, 0) & 0b1111_0000) >> 4;
        let words = (be2leu8(data, 0) & 0b0000_1111) >> 0;
        let reserved = (be2leu8(data, 1) & 0b0000_0001) >> 0;
        if version != 4 {
            return Err(Error::StructuralViolation(Violation::VersionMismatch { found: version }));
        }
        if words < 5 {
            return Err(
                Error::StructuralViolation(Violation::HeaderLengthOutOfRange { found: words }),
            );
        }
        if words > 20 {
            return Err(
                Error::StructuralViolation(Violation::HeaderLengthOutOfRange { found: words }),
            );
        }
        if reserved != 0 {
            return Err(Error::StructuralViolation(Violation::ReservedBitSet));
        }
        Ok(IPv4 { data })
    }

    /// The byte at `i` of the fixed header.
    fn byte(&self, i: usize) -> (r: u8)
        requires
            i < MIN_HEADER_SIZE,
        ensures
            r == self@[i as int],
            self@.len() >= MIN_HEADER_SIZE,
            rejection(self@) is None,
    {
        proof {
            use_type_invariant(self);
        }
        be2leu8(self.data, i)
    }

    /// The two bytes at `i` of the fixed header, the first being the low one.
    fn pair(&self, i: usize) -> (r: u16)
        requires
            i + 2 <= MIN_HEADER_SIZE,
        ensures
            r == le_value(self@, i as int, 2),
    {
        proof {
            use_type_invariant(self);
        }
        be2leu16(self.data, i)
    }

    /// The version of the protocol, which is 4 for every datagram.
    pub fn version(&self) -> (r: u8)
        ensures
            r == 4,
            r == version_nibble(self@),
    {
        proof {
            use_type_invariant(self);
        }
        4
    }

    /// The version as the header spells it.
    pub fn version_raw(&self) -> (r: u8)
        ensures
            r == version_nibble(self@),
            r == 4,
    {
        let b = self.byte(0);
        proof {
            lemma_byte_fields(b);
        }
        (b & 0b1111_0000) >> 4
    }

    /// The header length in 32-bit words.
    pub fn header_length(&self) -> (r: u8)
        ensures
            r == header_words(self@),
            5 <= r <= 15,
    {
        let b = self.byte(0);
        proof {
            lemma_byte_fields(b);
        }
        (b & 0b0000_1111) >> 0
    }

    /// The reserved bit of the second byte, which is 0 for every datagram.
    pub fn reserved1(&self) -> (r: u8)
        ensures
            r == self@[1] % 2,
            r == 0,
    {
        let b = self.byte(1);
        proof {
            lemma_byte_fields(b);
        }
        (b & 0b0000_0001) >> 0
    }

    /// The flag for low cost: the second lowest bit of the second byte.
    pub fn cost(&self) -> (r: u8)
        ensures
            r == self@[1] / 2 % 2,
    {
        let b = self.byte(1);
        proof {
            lemma_byte_fields(b);
        }
        (b & 0b0000_0010) >> 1
    }

    /// The flag for high reliability: the third lowest bit of the second
    /// byte.
    pub fn reliability(&self) -> (r: u8)
        ensures
            r == self@[1] / 4 % 2,
    {
        let b = self.byte(1);
        proof {
            lemma_byte_fields(b);
        }
        (b & 0b0000_0100) >> 2
    }

    /// The flag for high throughput: the fourth lowest bit of the second
    /// byte.
    pub fn throughput(&self) -> (r: u8)
        ensures
            r == self@[1] / 8 % 2,
    {
        let b = self.byte(1);
        proof {
            lemma_byte_fields(b);
        }
        (b & 0b0000_1000) >> 3
    }

    /// The flag for low delay: the fifth lowest bit of the second byte.
    pub fn delay(&self) -> (r: u8)
        ensures
            r == self@[1] / 16 % 2,
    {
        let b = self.byte(1);
        proof {
            lemma_byte_fields(b);
        }
        (b & 0b0001_0000) >> 4
    }

    /// The three highest bits of the second byte.
    pub fn precedence(&self) -> (r: u8)
        ensures
            r == self@[1] / 32,
    {
        let b = self.byte(1);
        proof {
            lemma_byte_fields(b);
        }
        (b & 0b1110_0000) >> 5
    }

    /// The length that the datagram declares: bytes 2 and 3, the first
    /// being the low one.
    pub fn total_length(&self) -> (r: u16)
        ensures
            r == le_value(self@, 2, 2),
    {
        self.pair(2)
    }

    /// The identification of the datagram: bytes 4 and 5, the first being
    /// the low one.
    pub fn identification(&self) -> (r: u16)
        ensures
            r == le_value(self@, 4, 2),
    {
        self.pair(4)
    }

    /// The first of the three flags: the highest bit of byte 6.
    pub fn reserved2(&self) -> (r: u8)
        ensures
            r == self@[6] / 128,
    {
        let b = self.byte(6);
        proof {
            lemma_byte_fields(b);
        }
        (b & 0b1000_0000) >> 7
    }

    /// The flag that forbids fragmenting: the second highest bit of byte 6.
    pub fn df(&self) -> (r: u8)
        ensures
            r == self@[6] / 64 % 2,
    {
        let b = self.byte(6);
        proof {
            lemma_byte_fields(b);
        }
        (b & 0b0100_0000) >> 6
    }

    /// The flag that announces more fragments: the third highest bit of
    /// byte 6.
    pub fn mf(&self) -> (r: u8)
        ensures
            r == self@[6] / 32 % 2,
    {
        let b = self.byte(6);
        proof {
            lemma_byte_fields(b);
        }
        (b & 0b0010_0000) >> 5
    }

    /// The thirteen bits behind the flags: the five low bits of byte 6 above
    /// the eight bits of byte 7.
    pub fn fragment_offset(&self) -> (r: u16)
        ensures
            r == (self@[6] % 32) * 256 + self@[7],
            r < 0x2000,
    {
        let high = self.byte(6);
        let low = self.byte(7);
        proof {
            lemma_byte_fields(high);
        }
        ((high & 0b0001_1111) as u16) * 256 + (low as u16)
    }

    /// The number of hops that the datagram may still take: byte 8.
    pub fn time_to_live(&self) -> (r: u8)
        ensures
            r == self@[8],
    {
        self.byte(8)
    }

    /// The protocol of the payload, as byte 9 names it.
    pub fn protocol(&self) -> (r: Protocol)
        ensures
            r == Protocol::spec_from_value(self@[9] as u32),
    {
        Protocol::from_value(self.byte(9) as u32)
    }

    /// The checksum that the header carries; it is not checked.
    pub fn header_checksum(&self) -> (r: u16)
        ensures
            r == le_value(self@, 10, 2),
    {
        self.pair(10)
    }

    /// The address that the datagram comes from: bytes 12 to 15.
    pub fn source_address(&self) -> (r: Ipv4Address)
        ensures
            r@ == self@.subrange(12, 16),
    {
        let r = Ipv4Address::from_bytes(
            [self.byte(12), self.byte(13), self.byte(14), self.byte(15)],
        );
        assert(r@ =~= self@.subrange(12, 16));
        r
    }

    /// The address that the datagram is sent to: bytes 16 to 19.
    pub fn destination_address(&self) -> (r: Ipv4Address)
        ensures
            r@ == self@.subrange(16, 20),
    {
        let r = Ipv4Address::from_bytes(
            [self.byte(16), self.byte(17), self.byte(18), self.byte(19)],
        );
        assert(r@ =~= self@.subrange(16, 20));
        r
    }

    /// The bytes handed to the next layer: those from offset 14 up to the
    /// last four.
    pub fn raw_payload(&self) -> (r: &'a [u8])
        ensures
            r@ == payload_bytes(self@),
            r@.len() == self@.len() - PAYLOAD_OFFSET - TRAILER_SIZE,
            rejection(self@) is None,
    {
        proof {
            use_type_invariant(self);
        }
        &self.data[PAYLOAD_OFFSET..self.data.len() - TRAILER_SIZE]
    }

    /// The payload decoded as the protocol field says: a TCP segment, or the
    /// reason why there is none.
    pub fn payload(&self) -> (r: Result<Payload<'a>, Error>)
        ensures
            match payload_failure(self@) {
                Some(e) => r == Err::<Payload<'a>, Error>(e),
                None => r matches Ok(payload) && decoded_payload(self@, payload),
            },
    {
        match self.protocol() {
            Protocol::TCP => match tcp::Tcp::from_bytes(self.raw_payload()) {
                Ok(segment) => Ok(Payload::Tcp(segment)),
                Err(e) => Err(e),
            },
            Protocol::UDP => Err(Error::Unimplemented(Unsupported::Udp)),
            _ => Err(Error::Unimplemented(Unsupported::UnknownProtocol)),
        }
    }

    /// The payload as text: the segment it decodes to, or the reason why
    /// there is none.
    fn payload_text(&self) -> (r: String)
        ensures
            r@ == payload_listing(self@),
    {
        match self.payload() {
            Ok(Payload::Tcp(segment)) => {
                let mut text = String::from_str("Ok(Tcp(");
                text.append(segment.to_text().as_str());
                text.append("))");
                text
            },
            Err(e) => {
                let mut text = String::from_str("Err(");
                text.append(e.message().as_str());
                text.append(")");
                text
            },
        }
    }

    /// The datagram as text: a line for each of its fields, and its
    /// payload.
    pub fn to_text(&self) -> (r: String)
        ensures
            r@ == listing(self@),
    {
        let mut text = String::from_str("    Ipv4\n");
        push_field(&mut text, "        header_length:       ", self.header_length() as usize);
        push_field(&mut text, "        version:             ", self.version() as usize);
        push_field(&mut text, "        reserved1:           ", self.reserved1() as usize);
        push_field(&mut text, "        cost:                ", self.cost() as usize);
        push_field(&mut text, "        reliability:         ", self.reliability() as usize);
        push_field(&mut text, "        throughput:          ", self.throughput() as usize);
        push_field(&mut text, "        delay:               ", self.delay() as usize);
        push_field(&mut text, "        precedence:          ", self.precedence() as usize);
        push_field(&mut text, "        total_length:        ", self.total_length() as usize);
        push_field(&mut text, "        identification:      ", self.identification() as usize);
        push_field(&mut text, "        reserved2:           ", self.reserved2() as usize);
        push_field(&mut text, "        df:                  ", self.df() as usize);
        push_field(&mut text, "        mf:                  ", self.mf() as usize);
        push_field(&mut text, "        fragment_offset:     ", self.fragment_offset() as usize);
        push_field(&mut text, "        time_to_live:        ", self.time_to_live() as usize);
        push_text_field(&mut text, "        protocol:            ", self.protocol().name().as_str());
        push_field(&mut text, "        header_checksum:     ", self.header_checksum() as usize);
        push_text_field(
            &mut text,
            "        source_address:      ",
            self.source_address().to_text().as_str(),
        );
        push_text_field(
            &mut text,
            "        destination_address: ",
            self.destination_address().to_text().as_str(),
        );
        push_text_field(&mut text, "        payload: ", self.payload_text().as_str());
        text
    }
}

} // verus!
