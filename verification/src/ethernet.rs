//! A view of an Ethernet frame.

use crate::endian::{le_value, lemma_le_value_bounds};
use crate::error::{Error, Layer};
use crate::ipv4;
use crate::shared::MacAddress;
use crate::text::{field, joined, push_field, push_text_field, text_field};
use byteorder::{LittleEndian, ReadBytesExt};
use core::ops::Range;
use vstd::prelude::*;
use vstd::string::StringExecFns;

verus! {

/// The number of bytes in an address.
pub const ADDRESS_SIZE: usize = 6;

/// The number of bytes in the ether-type.
pub const ETHER_TYPE_SIZE: usize = 2;

/// The number of bytes in the trailer.
pub const CRC_SIZE: usize = 4;

/// The length of the header: two addresses and the ether-type.
pub const HEADER_SIZE: usize = ADDRESS_SIZE * 2 + ETHER_TYPE_SIZE;

/// The length of the shortest frame: a header and a trailer, no payload.
pub const MIN_TOTAL_SIZE: usize = 6 + 6 + 2 + 4;

/// The length of the longest frame.
pub const MAX_TOTAL_SIZE: usize = 1518;

/// The number of bytes that can follow the header of a frame.
pub const MAX_PAYLOAD_SIZE: usize = MAX_TOTAL_SIZE - HEADER_SIZE;

/// The least size that any host accepts for a datagram.
pub const MINIMUM_MAXIMUM_SEGMENT_SIZE: usize = 576;

/// The decoded payload of a frame.
#[derive(Debug, Clone, Copy)]
pub enum Payload<'a> {
    IPv4(ipv4::IPv4<'a>),
    Invalid,
}

/// The protocol that a frame carries.
#[derive(Debug, Clone, Copy, PartialEq, Eq, Structural)]
pub enum EtherType {
    Unknown,
    IPv4,
    ARP,
    RARP,
    SLPP,
    IPv6,
}

impl EtherType {
    /// The protocol that a code stands for, the code being the two bytes of
    /// the field read with the first byte as the low one.
    pub open spec fn spec_from_code(code: u16) -> EtherType {
        if code == 0x0008 {
            EtherType::IPv4
        } else if code == 0x0608 {
            EtherType::ARP
        } else if code == 0x3580 {
            EtherType::RARP
        } else if code == 0x0281 {
            EtherType::SLPP
        } else if code == 0xDD86 {
            EtherType::IPv6
        } else {
            EtherType::Unknown
        }
    }

    /// The code that stands for a protocol; none being assigned to
    /// `Unknown`, it has the code 0.
    pub open spec fn spec_code(self) -> u16 {
        match self {
            EtherType::Unknown => 0x0000,
            EtherType::IPv4 => 0x0008,
            EtherType::ARP => 0x0608,
            EtherType::RARP => 0x3580,
            EtherType::SLPP => 0x0281,
            EtherType::IPv6 => 0xDD86,
        }
    }

    /// Reading back the code of a protocol yields that protocol.
    pub proof fn lemma_code_round_trip(self)
        ensures
            Self::spec_from_code(self.spec_code()) == self,
    {
    }

    /// Every code but the five assigned ones stands for `Unknown`.
    pub proof fn lemma_unassigned_is_unknown(code: u16)
        ensures
            Self::spec_from_code(code) == EtherType::Unknown <==> !(code == 0x0008 || code == 0x0608
                || code == 0x3580 || code == 0x0281 || code == 0xDD86),
    {
    }

    /// The code that stands for the protocol.
    pub fn code(&self) -> (r: u16)
        ensures
            r == self.spec_code(),
    {
        match self {
            EtherType::Unknown => 0x0000,
            EtherType::IPv4 => 0x0008,
            EtherType::ARP => 0x0608,
            EtherType::RARP => 0x3580,
            EtherType::SLPP => 0x0281,
            EtherType::IPv6 => 0xDD86,
        }
    }

    /// The name of the protocol.
    pub open spec fn name_text(self) -> Seq<char> {
        match self {
            EtherType::Unknown => "Unknown"@,
            EtherType::IPv4 => "IPv4"@,
            EtherType::ARP => "ARP"@,
            EtherType::RARP => "RARP"@,
            EtherType::SLPP => "SLPP"@,
            EtherType::IPv6 => "IPv6"@,
        }
    }

    /// The name of the protocol.
    pub fn name(&self) -> (r: String)
        ensures
            r@ == self.name_text(),
    {
        match self {
            EtherType::Unknown => String::from_str("Unknown"),
            EtherType::IPv4 => String::from_str("IPv4"),
            EtherType::ARP => String::from_str("ARP"),
            EtherType::RARP => String::from_str("RARP"),
            EtherType::SLPP => String::from_str("SLPP"),
            EtherType::IPv6 => String::from_str("IPv6"),
        }
    }

    /// The protocol that `code` stands for; `Unknown` for a code that
    /// stands for none.
    pub fn from_code(code: u16) -> (r: Self)
        ensures
            r == Self::spec_from_code(code),
    {
        match code {
            0x0008 => Self::IPv4,
            0x0608 => Self::ARP,
            0x3580 => Self::RARP,
            0x0281 => Self::SLPP,
            0xDD86 => Self::IPv6,
            _ => Self::Unknown,
        }
    }
}

/// Reads a 16-bit number from the start of `field` with
/// `byteorder::ReadBytesExt::read_u16`, in the order of
/// `byteorder::LittleEndian`. The contract claims that two bytes or more
/// yield the number whose low byte is the first one, and that fewer bytes
/// yield nothing.
#[verifier::external_body]
fn read_u16_le(field: &[u8]) -> (r: Option<u16>)
    ensures
        field@.len() >= 2 ==> r == Some(le_value(field@, 0, 2) as u16),
        field@.len() < 2 ==> r is None,
{
    let mut reader = field;
    reader.read_u16::<LittleEndian>().ok()
}

/// Reads a 32-bit number from the start of `field` with
/// `byteorder::ReadBytesExt::read_u32`, in the order of
/// `byteorder::LittleEndian`. The contract claims that four bytes or more
/// yield the number whose lowest byte is the first one, and that fewer
/// bytes yield nothing.
#[verifier::external_body]
fn read_u32_le(field: &[u8]) -> (r: Option<u32>)
    ensures
        field@.len() >= 4 ==> r == Some(le_value(field@, 0, 4) as u32),
        field@.len() < 4 ==> r is None,
{
    let mut reader = field;
    reader.read_u32::<LittleEndian>().ok()
}

/// The reason why `bytes` are no Ethernet frame, if there is one: they are
/// fewer than a header and a trailer take.
pub open spec fn rejection(bytes: Seq<u8>) -> Option<Error> {
    if bytes.len() < MIN_TOTAL_SIZE {
        Some(
            Error::TooShort {
                layer: Layer::Ethernet,
                needed: MIN_TOTAL_SIZE,
                got: bytes.len() as usize,
            },
        )
    } else {
        None
    }
}

/// The protocol that a frame names in its ether-type field.
pub open spec fn ether_type_of(bytes: Seq<u8>) -> EtherType {
    EtherType::spec_from_code(le_value(bytes, 2 * ADDRESS_SIZE, 2) as u16)
}

/// The bytes of a frame between its header and its trailer.
pub open spec fn payload_bytes(bytes: Seq<u8>) -> Seq<u8> {
    bytes.subrange(HEADER_SIZE as int, bytes.len() - CRC_SIZE)
}

/// The reason why the payload of a frame cannot be decoded, if there is one:
/// the frame carries IPv4 and its payload is no IPv4 datagram.
pub open spec fn payload_failure(bytes: Seq<u8>) -> Option<Error> {
    if ether_type_of(bytes) == EtherType::IPv4 {
        ipv4::rejection(payload_bytes(bytes))
    } else {
        None
    }
}

/// Whether `payload` is what the payload of a frame decodes to, where it can
/// be decoded: a view of the bytes between header and trailer as an IPv4
/// datagram where the frame carries IPv4, and the mark of a protocol that is
/// not decoded where it carries anything else.
pub open spec fn decoded_payload(bytes: Seq<u8>, payload: Payload) -> bool {
    if ether_type_of(bytes) == EtherType::IPv4 {
        payload matches Payload::IPv4(datagram) && datagram@ == payload_bytes(bytes)
    } else {
        payload is Invalid
    }
}

/// The payload of a frame as text: the datagram it decodes to, the mark of
/// a protocol that is not decoded, or the reason why there is none.
pub open spec fn payload_listing(frame: Seq<u8>) -> Seq<char> {
    match payload_failure(frame) {
        Some(e) => "Err("@ + e.message_text() + ")"@,
        None => if ether_type_of(frame) == EtherType::IPv4 {
            "Ok(IPv4("@ + ipv4::listing(payload_bytes(frame)) + "))"@
        } else {
            "Ok(Invalid)"@
        },
    }
}

/// A frame as text: a line for each of its fields, and its payload.
pub open spec fn listing(frame: Seq<u8>) -> Seq<char> {
    "Ethernet\n"@ + text_field("    Source:      "@, joined(frame.subrange(6, 12), seq![':']))
        + text_field("    Destination: "@, joined(frame.subrange(0, 6), seq![':'])) + text_field(
        "    Ether Type:  "@,
        ether_type_of(frame).name_text(),
    ) + text_field("    Payload:     "@, payload_listing(frame)) + field(
        "    Crc:         "@,
        le_value(frame, frame.len() - CRC_SIZE, 4),
    )
}

/// An Ethernet frame, read in place.
#[derive(Debug, Clone, Copy)]
pub struct Ethernet<'a> {
    data: &'a [u8],
}

impl<'a> Ethernet<'a> {
    /// The number of bytes in an address.
    pub const MAC_ADDRESS_SIZE: usize = 6;

    /// The number of bytes in the ether-type.
    pub const ETHER_TYPE_SIZE: usize = 2;

    /// The number of bytes in the trailer.
    pub const CRC_SIZE: usize = 4;

    /// The bytes that a frame has besides its payload.
    pub const HEADER_SIZE: usize = 2 * ADDRESS_SIZE + ETHER_TYPE_SIZE + CRC_SIZE;

    /// Where the destination address stands.
    pub const DEST_MAC_ADDRESS_OFFSET: Range<usize> = 0..6;

    /// Where the source address stands.
    pub const SRC_MAC_ADDRESS_OFFSET: Range<usize> = 6..12;

    /// Where the ether-type stands.
    pub const ETHER_TYPE_OFFSET: Range<usize> = 12..14;

    /// Where the payload starts.
    pub const PAYLOAD_OFFSET: usize = 14;

    #[verifier::type_invariant]
    spec fn inv(&self) -> bool {
        self.data@.len() >= MIN_TOTAL_SIZE
    }

    /// The bytes of the frame.
    pub closed spec fn view(&self) -> Seq<u8> {
        self.data@
    }

    /// The address that the frame is sent to: its first six bytes.
    pub fn destination(&self) -> (r: MacAddress)
        ensures
            r@ == self@.subrange(0, 6),
    {
        proof {
            use_type_invariant(self);
        }
        MacAddress::from_bytes_unchecked(&self.data[Self::DEST_MAC_ADDRESS_OFFSET])
    }

    /// The address that the frame comes from: the six bytes behind the
    /// destination.
    pub fn source(&self) -> (r: MacAddress)
        ensures
            r@ == self@.subrange(6, 12),
    {
        proof {
            use_type_invariant(self);
        }
        MacAddress::from_bytes_unchecked(&self.data[Self::SRC_MAC_ADDRESS_OFFSET])
    }

    /// The protocol that the frame carries. The field is taken as an
    /// ether-type whatever its value, also where it would count as a length.
    pub fn ether_type(&self) -> (r: EtherType)
        ensures
            r == ether_type_of(self@),
    {
        proof {
            use_type_invariant(self);
        }
        let field = &self.data[Self::ETHER_TYPE_OFFSET];
        proof {
            lemma_le_value_bounds(field@, 0);
            lemma_le_value_bounds(self.data@, 12);
        }
        EtherType::from_code(read_u16_le(field).unwrap())
    }

    /// The bytes between the header and the trailer.
    pub fn raw_payload(&self) -> (r: &'a [u8])
        ensures
            r@ == payload_bytes(self@),
            r@.len() == self@.len() - MIN_TOTAL_SIZE,
            rejection(self@) is None,
    {
        proof {
            use_type_invariant(self);
        }
        &self.data[Self::PAYLOAD_OFFSET..self.data.len() - Self::CRC_SIZE]
    }

    /// The number of bytes between the header and the trailer.
    pub fn payload_size(&self) -> (r: usize)
        ensures
            r == self@.len() - MIN_TOTAL_SIZE,
            r == payload_bytes(self@).len(),
    {
        proof {
            use_type_invariant(self);
        }
        self.data.len() - MIN_TOTAL_SIZE
    }

    /// The payload decoded as the ether-type says: an IPv4 datagram, the
    /// reason why the payload is none, or the mark of a protocol that is not
    /// decoded.
    pub fn payload(&self) -> (r: Result<Payload<'a>, Error>)
        ensures
            match payload_failure(self@) {
                Some(e) => r == Err::<Payload<'a>, Error>(e),
                None => r matches Ok(payload) && decoded_payload(self@, payload),
            },
    {
        match self.ether_type() {
            EtherType::IPv4 => match ipv4::IPv4::from_bytes(self.raw_payload()) {
                Ok(datagram) => Ok(Payload::IPv4(datagram)),
                Err(e) => Err(e),
            },
            EtherType::ARP => Ok(Payload::Invalid),
            EtherType::RARP => Ok(Payload::Invalid),
            EtherType::SLPP => Ok(Payload::Invalid),
            EtherType::IPv6 => Ok(Payload::Invalid),
            EtherType::Unknown => Ok(Payload::Invalid),
        }
    }

    /// The checksum in the trailer: the last four bytes, the first of them
    /// being the lowest.
    pub fn crc(&self) -> (r: u32)
        ensures
            r == le_value(self@, self@.len() - CRC_SIZE, 4),
    {
        proof {
            use_type_invariant(self);
        }
        let len = self.data.len();
        let field = &self.data[len - Self::CRC_SIZE..len];
        proof {
            lemma_le_value_bounds(field@, 0);
            lemma_le_value_bounds(field@, 2);
            lemma_le_value_bounds(self.data@, len - CRC_SIZE);
            lemma_le_value_bounds(self.data@, len - CRC_SIZE + 2);
        }
        read_u32_le(field).unwrap()
    }

    /// A view of `data` as an Ethernet frame; fails where `data` is shorter
    /// than a header and a trailer.
    pub fn from_bytes(data: &'a [u8]) -> (r: Result<Self, Error>)
        ensures
            match rejection(data@) {
                Some(e) => r == Err::<Self, Error>(e),
                None => r matches Ok(frame) && frame@ == data@,
            },
    {
        if data.len() < MIN_TOTAL_SIZE {
            return Err(
                Error::TooShort { layer: Layer::Ethernet, needed: MIN_TOTAL_SIZE, got: data.len() },
            );
        }
        Ok(Self { data })
    }

    /// The payload as text: the datagram it decodes to, the mark of a
    /// protocol that is not decoded, or the reason why there is none.
    fn payload_text(&self) -> (r: String)
        ensures
            r@ == payload_listing(self@),
    {
        match self.payload() {
            Ok(Payload::IPv4(datagram)) => {
                let mut text = String::from_str("Ok(IPv4(");
                text.append(datagram.to_text().as_str());
                text.append("))");
                text
            },
            Ok(Payload::Invalid) => String::from_str("Ok(Invalid)"),
            Err(e) => {
                let mut text = String::from_str("Err(");
                text.append(e.message().as_str());
                text.append(")");
                text
            },
        }
    }

    /// The frame as text: a line for each of its fields, and its payload.
    pub fn to_text(&self) -> (r: String)
        ensures
            r@ == listing(self@),
    {
        let mut text = String::from_str("Ethernet\n");
        push_text_field(&mut text, "    Source:      ", self.source().to_text().as_str());
        push_text_field(&mut text, "    Destination: ", self.destination().to_text().as_str());
        push_text_field(&mut text, "    Ether Type:  ", self.ether_type().name().as_str());
        push_text_field(&mut text, "    Payload:     ", self.payload_text().as_str());
        push_field(&mut text, "    Crc:         ", self.crc() as usize);
        text
    }
}

} // verus!
