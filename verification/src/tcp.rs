//! A view of a TCP segment and the decoder of its option list.

use crate::endian::{
    be2leu16, be2leu32, be2leu8, le_value, lemma_byte_fields, lemma_le_value_bounds,
};
use crate::error::{Error, Layer, Violation};
use crate::text::{decimal, field, push_field, push_number, text_field};
use core::ops::Range;
use vstd::prelude::*;
use vstd::string::StringExecFns;

verus! {

/// The length of the fixed part of a TCP header.
pub const FIXED_HEADER_SIZE: usize = 20;

/// One decoded TCP option.
#[derive(Debug, Clone, Copy, PartialEq, Eq, Structural)]
pub enum TcpOption {
    NoOperation,
    MaximumSegmentSize { size: u16 },
    WindowScale { scale: u8 },
    SackPermitted,
    Sack { begin: u32, end: u32 },
    Sack2 {  },
    Sack3 {  },
    Sack4 {  },
    Timestamp { timestamp: u32, echo: u32 },
}

impl TcpOption {
    /// The option as text: its name and, in braces, its fields.
    pub open spec fn text(self) -> Seq<char> {
        match self {
            TcpOption::NoOperation => "NoOperation"@,
            TcpOption::MaximumSegmentSize { size } => "MaximumSegmentSize { size: "@ + decimal(
                size as nat,
            ) + " }"@,
            TcpOption::WindowScale { scale } => "WindowScale { scale: "@ + decimal(scale as nat)
                + " }"@,
            TcpOption::SackPermitted => "SackPermitted"@,
            TcpOption::Sack { begin, end } => "Sack { begin: "@ + decimal(begin as nat)
                + ", end: "@ + decimal(end as nat) + " }"@,
            TcpOption::Sack2 {  } => "Sack2"@,
            TcpOption::Sack3 {  } => "Sack3"@,
            TcpOption::Sack4 {  } => "Sack4"@,
            TcpOption::Timestamp { timestamp, echo } => "Timestamp { timestamp: "@ + decimal(
                timestamp as nat,
            ) + ", echo: "@ + decimal(echo as nat) + " }"@,
        }
    }

    /// The option as text: its name and, in braces, its fields.
    pub fn to_text(&self) -> (r: String)
        ensures
            r@ == self.text(),
    {
        match self {
            TcpOption::NoOperation => String::from_str("NoOperation"),
            TcpOption::MaximumSegmentSize { size } => {
                let mut text = String::from_str("MaximumSegmentSize { size: ");
                push_number(&mut text, *size as usize);
                text.append(" }");
                text
            },
            TcpOption::WindowScale { scale } => {
                let mut text = String::from_str("WindowScale { scale: ");
                push_number(&mut text, *scale as usize);
                text.append(" }");
                text
            },
            TcpOption::SackPermitted => String::from_str("SackPermitted"),
            TcpOption::Sack { begin, end } => {
                let mut text = String::from_str("Sack { begin: ");
                push_number(&mut text, *begin as usize);
                text.append(", end: ");
                push_number(&mut text, *end as usize);
                text.append(" }");
                text
            },
            TcpOption::Sack2 {  } => String::from_str("Sack2"),
            TcpOption::Sack3 {  } => String::from_str("Sack3"),
            TcpOption::Sack4 {  } => String::from_str("Sack4"),
            TcpOption::Timestamp { timestamp, echo } => {
                let mut text = String::from_str("Timestamp { timestamp: ");
                push_number(&mut text, *timestamp as usize);
                text.append(", echo: ");
                push_number(&mut text, *echo as usize);
                text.append(" }");
                text
            },
        }
    }
}

/// The number of bytes that follow a tag and belong to its option; `None`
/// for a tag that ends the list.
pub open spec fn operand_len(tag: u8) -> Option<nat> {
    if tag == 1 {
        Some(0)
    } else if tag == 2 {
        Some(2)
    } else if tag == 3 {
        Some(1)
    } else if tag == 4 {
        Some(0)
    } else if tag == 5 {
        Some(8)
    } else if tag == 8 {
        Some(8)
    } else {
        None
    }
}

/// The option whose tag stands at `index`, given that the tag does not end
/// the list and that its operand bytes are there.
pub open spec fn option_value(bytes: Seq<u8>, index: int) -> TcpOption {
    let tag = bytes[index];
    if tag == 1 {
        TcpOption::NoOperation
    } else if tag == 2 {
        TcpOption::MaximumSegmentSize { size: le_value(bytes, index + 1, 2) as u16 }
    } else if tag == 3 {
        TcpOption::WindowScale { scale: bytes[index + 1] }
    } else if tag == 4 {
        TcpOption::SackPermitted
    } else if tag == 5 {
        TcpOption::Sack {
            begin: le_value(bytes, index + 1, 4) as u32,
            end: le_value(bytes, index + 5, 4) as u32,
        }
    } else {
        TcpOption::Timestamp {
            timestamp: le_value(bytes, index + 1, 4) as u32,
            echo: le_value(bytes, index + 5, 4) as u32,
        }
    }
}

/// The option that starts at `index`, if one does: `None` at the end of the
/// bytes, at a tag that ends the list, and at an option cut short.
pub open spec fn option_at(bytes: Seq<u8>, index: int) -> Option<TcpOption> {
    if 0 <= index < bytes.len() {
        match operand_len(bytes[index]) {
            Some(n) => if index + 1 + n <= bytes.len() {
                Some(option_value(bytes, index))
            } else {
                None
            },
            None => None,
        }
    } else {
        None
    }
}

/// The index behind the option that starts at `index`.
pub open spec fn next_index(bytes: Seq<u8>, index: int) -> int {
    match operand_len(bytes[index]) {
        Some(n) => index + 1 + n,
        None => index + 1,
    }
}

/// All options decoded from `index` on, in order, up to the first place
/// where no option starts.
pub open spec fn options_from(bytes: Seq<u8>, index: int) -> Seq<TcpOption>
    decreases bytes.len() - index,
{
    match option_at(bytes, index) {
        Some(option) => seq![option] + options_from(bytes, next_index(bytes, index)),
        None => Seq::empty(),
    }
}

/// A forward-only cursor over the option bytes of a TCP header.
#[derive(Debug)]
pub struct OptionIter<'a> {
    data: &'a [u8],
    index: usize,
}

impl<'a> OptionIter<'a> {
    #[verifier::type_invariant]
    spec fn inv(&self) -> bool {
        self.index <= self.data@.len()
    }

    /// The option bytes that the cursor runs over.
    pub closed spec fn bytes(&self) -> Seq<u8> {
        self.data@
    }

    /// The index of the next tag.
    pub closed spec fn position(&self) -> int {
        self.index as int
    }

    /// The options that are still to come.
    pub open spec fn remaining(&self) -> Seq<TcpOption> {
        options_from(self.bytes(), self.position())
    }

    /// A cursor at the start of `data`.
    pub fn new(data: &'a [u8]) -> (r: Self)
        ensures
            r.bytes() == data@,
            r.position() == 0,
    {
        OptionIter { data, index: 0 }
    }

    /// Decodes the option at the cursor and moves behind it. Where no option
    /// starts, the cursor moves to the end of the bytes and stays there.
    pub fn next(&mut self) -> (r: Option<TcpOption>)
        ensures
            final(self).bytes() == old(self).bytes(),
            r == option_at(old(self).bytes(), old(self).position()),
            r is Some ==> final(self).position() == next_index(
                old(self).bytes(),
                old(self).position(),
            ),
            r is None ==> final(self).position() == old(self).bytes().len(),
            match r {
                Some(option) => old(self).remaining() == seq![option] + final(self).remaining(),
                None => old(self).remaining().len() == 0 && final(self).remaining().len() == 0,
            },
    {
        proof {
            use_type_invariant(&*self);
            lemma_le_value_bounds(self.data@, self.index + 1);
            lemma_le_value_bounds(self.data@, self.index + 5);
        }
        let len = self.data.len();
        let start = self.index;
        if start >= len {
            return None;
        }
        let tag = self.data[start];
        let at = start + 1;
        let room = len - at;
        let decoded = if tag == 1 {
            Some((TcpOption::NoOperation, at))
        } else if tag == 2 && room >= 2 {
            let size = be2leu16(self.data, at);
            Some((TcpOption::MaximumSegmentSize { size }, at + 2))
        } else if tag == 3 && room >= 1 {
            let scale = be2leu8(self.data, at);
            Some((TcpOption::WindowScale { scale }, at + 1))
        } else if tag == 4 {
            Some((TcpOption::SackPermitted, at))
        } else if tag == 5 && room >= 8 {
            let begin = be2leu32(self.data, at);
            let end = be2leu32(self.data, at + 4);
            Some((TcpOption::Sack { begin, end }, at + 8))
        } else if tag == 8 && room >= 8 {
            let timestamp = be2leu32(self.data, at);
            let echo = be2leu32(self.data, at + 4);
            Some((TcpOption::Timestamp { timestamp, echo }, at + 8))
        } else {
            None
        };
        match decoded {
            Some((option, behind)) => {
                self.index = behind;
                Some(option)
            },
            None => {
                self.index = len;
                None
            },
        }
    }

    /// Decodes all options that are still to come.
    pub fn collect(self) -> (r: Vec<TcpOption>)
        ensures
            r@ == self.remaining(),
    {
        let mut cursor = self;
        let mut out: Vec<TcpOption> = Vec::new();
        proof {
            use_type_invariant(&cursor);
        }
        loop
            invariant
                cursor.bytes() == self.bytes(),
                cursor.position() <= cursor.bytes().len(),
                self.remaining() == out@ + cursor.remaining(),
            decreases cursor.bytes().len() - cursor.position(),
        {
            let ghost before = cursor;
            match cursor.next() {
                Some(option) => {
                    proof {
                        use_type_invariant(&cursor);
                    }
                    out.push(option);
                    assert(out@ + cursor.remaining() =~= (out@.drop_last() + (seq![option]
                        + cursor.remaining())));
                },
                None => {
                    assert(out@ + cursor.remaining() =~= out@);
                    return out;
                },
            }
        }
    }
}

/// No decoded option is one of the variants kept for further selective
/// acknowledgment blocks.
pub proof fn lemma_reserved_variants_unused(bytes: Seq<u8>, index: int)
    ensures
        !(option_at(bytes, index) matches Some(TcpOption::Sack2 {  })),
        !(option_at(bytes, index) matches Some(TcpOption::Sack3 {  })),
        !(option_at(bytes, index) matches Some(TcpOption::Sack4 {  })),
{
}

/// Behind the last byte no option starts: a cursor that has come to the end
/// yields nothing more, however often it is asked.
pub proof fn lemma_end_is_final(bytes: Seq<u8>)
    ensures
        option_at(bytes, bytes.len() as int) is None,
        options_from(bytes, bytes.len() as int) == Seq::<TcpOption>::empty(),
{
}

/// Every option takes at least its tag, so no more options are decoded than
/// there are bytes left.
pub proof fn lemma_options_bounded(bytes: Seq<u8>, index: int)
    requires
        0 <= index <= bytes.len(),
    ensures
        options_from(bytes, index).len() <= bytes.len() - index,
    decreases bytes.len() - index,
{
    if option_at(bytes, index) is Some {
        lemma_options_bounded(bytes, next_index(bytes, index));
    }
}

/// The first reason for which `bytes` are refused as a TCP segment, if any:
/// fewer than 20 bytes, or a header declared longer than the bytes.
pub open spec fn rejection(bytes: Seq<u8>) -> Option<Error> {
    if bytes.len() < FIXED_HEADER_SIZE {
        Some(
            Error::TooShort {
                layer: Layer::Tcp,
                needed: FIXED_HEADER_SIZE,
                got: bytes.len() as usize,
            },
        )
    } else if header_len(bytes) > bytes.len() {
        Some(
            Error::StructuralViolation(
                Violation::HeaderTooLarge {
                    limit: bytes.len() as usize,
                    declared: header_len(bytes) as usize,
                },
            ),
        )
    } else {
        None
    }
}

/// A segment that holds the fixed header and declares a longer header than
/// it holds is refused for that reason.
pub proof fn lemma_oversized_header(bytes: Seq<u8>)
    requires
        bytes.len() >= FIXED_HEADER_SIZE,
        header_len(bytes) > bytes.len(),
    ensures
        rejection(bytes) == Some(
            Error::StructuralViolation(
                Violation::HeaderTooLarge {
                    limit: bytes.len() as usize,
                    declared: header_len(bytes) as usize,
                },
            ),
        ),
        rejection(bytes).unwrap().is_structural(),
{
}

/// The header length in bytes that a segment declares: four times the low
/// nibble of its byte 12.
pub open spec fn header_len(bytes: Seq<u8>) -> int {
    (bytes[12] % 16) * 4
}

/// The bytes of a segment that hold its options: those between the fixed
/// header and the declared end of the header.
pub open spec fn option_bytes(bytes: Seq<u8>) -> Seq<u8> {
    if header_len(bytes) > FIXED_HEADER_SIZE {
        bytes.subrange(FIXED_HEADER_SIZE as int, header_len(bytes))
    } else {
        Seq::empty()
    }
}

/// The lines that list the options from the `k`-th on, numbered from `k`.
pub open spec fn option_listing(options: Seq<TcpOption>, k: int) -> Seq<char>
    decreases options.len() - k,
{
    if k < 0 || k >= options.len() {
        Seq::empty()
    } else {
        text_field("        option["@ + decimal(k as nat) + "]:        "@, options[k].text())
            + option_listing(options, k + 1)
    }
}

/// A segment as text: a line for each of its fields and options.
pub open spec fn listing(segment: Seq<u8>) -> Seq<char> {
    "    Tcp\n"@ + field("        source_port:           "@, le_value(segment, 0, 2)) + field(
        "        destination_port:      "@,
        le_value(segment, 2, 2),
    ) + field("        sequence_number:       "@, le_value(segment, 4, 4)) + field(
        "        acknowledgment_number: "@,
        le_value(segment, 8, 4),
    ) + field("        reserved:              "@, (segment[12] / 16) as nat) + field(
        "        data_offset:           "@,
        (segment[12] % 16) as nat,
    ) + field("        cwr:                   "@, (segment[13] % 2) as nat) + field(
        "        ece:                   "@,
        (segment[13] / 2 % 2) as nat,
    ) + field("        urg:                   "@, (segment[13] / 4 % 2) as nat) + field(
        "        ack:                   "@,
        (segment[13] / 8 % 2) as nat,
    ) + field("        psh:                   "@, (segment[13] / 16 % 2) as nat) + field(
        "        rst:                   "@,
        (segment[13] / 32 % 2) as nat,
    ) + field("        syn:                   "@, (segment[13] / 64 % 2) as nat) + field(
        "        fin:                   "@,
        (segment[13] / 128) as nat,
    ) + field("        window_size:           "@, le_value(segment, 14, 2)) + field(
        "        check_sum:             "@,
        le_value(segment, 16, 2),
    ) + field("        urgent_pointer:        "@, le_value(segment, 18, 2)) + option_listing(
        options_from(option_bytes(segment), 0),
        0,
    )
}

/// A TCP segment, read in place.
#[derive(Debug, Clone, Copy)]
pub struct Tcp<'a> {
    data: &'a [u8],
}

impl<'a> Tcp<'a> {
    // The places of the fields, in bits from the start of the header.
    pub const SOURCE_PORT_BITS: Range<usize> = 0..16;

    pub const DESTINATION_PORT_BITS: Range<usize> = 16..32;

    pub const SEQUENCE_NUMBER_BITS: Range<usize> = 32..64;

    pub const ACKNOWLEDGMENT_NUMBER_BITS: Range<usize> = 64..96;

    pub const RESERVED_BITS: Range<usize> = 96..100;

    pub const DATA_OFFSET_BITS: Range<usize> = 100..104;

    pub const CWR_BITS: Range<usize> = 104..105;

    pub const ECE_BITS: Range<usize> = 105..106;

    pub const URG_BITS: Range<usize> = 106..107;

    pub const ACK_BITS: Range<usize> = 107..108;

    pub const PSH_BITS: Range<usize> = 108..109;

    pub const RST_BITS: Range<usize> = 109..110;

    pub const SYN_BITS: Range<usize> = 110..111;

    pub const FIN_BITS: Range<usize> = 111..112;

    pub const WINDOW_SIZE_BITS: Range<usize> = 112..128;

    pub const CHECK_SUM_BITS: Range<usize> = 128..144;

    pub const URGENT_POINTER_BITS: Range<usize> = 144..160;

    #[verifier::type_invariant]
    spec fn inv(&self) -> bool {
        rejection(self.data@) is None
    }

    /// The bytes of the segment.
    pub closed spec fn view(&self) -> Seq<u8> {
        self.data@
    }

    /// A view of `data` as a TCP segment, where `data` holds the fixed header
    /// and the header it declares.
    pub fn from_bytes(data: &'a [u8]) -> (r: Result<Self, Error>)
        ensures
            match rejection(data@) {
                Some(e) => r == Err::<Self, Error>(e),
                None => r matches Ok(segment) && segment@ == data@,
            },
    {
        if data.len() < FIXED_HEADER_SIZE {
            return Err(
                Error::TooShort { layer: Layer::Tcp, needed: FIXED_HEADER_SIZE, got: data.len() },
            );
        }
        proof {
            lemma_byte_fields(data@[12]);
        }
        let declared = ((be2leu8(data, 12) & 0b0000_1111) >> 0) as usize * 4;
        if declared > data.len() {
            return Err(
                Error::StructuralViolation(
                    Violation::HeaderTooLarge { limit: data.len(), declared },
                ),
            );
        }
        Ok(Tcp { data })
    }

    /// The port that the segment comes from: bytes 0 and 1, the first
    /// being the low one.
    pub fn source_port(&self) -> (r: u16)
        ensures
            r == le_value(self@, 0, 2),
    {
        proof {
            use_type_invariant(self);
        }
        be2leu16(self.data, 0)
    }

    /// The port that the segment is sent to: bytes 2 and 3, the first
    /// being the low one.
    pub fn destination_port(&self) -> (r: u16)
        ensures
            r == le_value(self@, 2, 2),
    {
        proof {
            use_type_invariant(self);
        }
        be2leu16(self.data, 2)
    }

    /// The sequence number: bytes 4 to 7, the first being the lowest.
    pub fn sequence_number(&self) -> (r: u32)
        ensures
            r == le_value(self@, 4, 4),
    {
        proof {
            use_type_invariant(self);
        }
        be2leu32(self.data, 4)
    }

    /// The acknowledgment number: bytes 8 to 11, the first being the
    /// lowest.
    pub fn acknowledgment_number(&self) -> (r: u32)
        ensures
            r == le_value(self@, 8, 4),
    {
        proof {
            use_type_invariant(self);
        }
        be2leu32(self.data, 8)
    }

    /// The high nibble of byte 12.
    pub fn reserved(&self) -> (r: u8)
        ensures
            r == self@[12] / 16,
    {
        proof {
            use_type_invariant(self);
            lemma_byte_fields(self.data@[12]);
        }
        (be2leu8(self.data, 12) & 0b1111_0000) >> 4
    }

    /// The header length in 32-bit words: the low nibble of byte 12.
    pub fn data_offset(&self) -> (r: u8)
        ensures
            r == self@[12] % 16,
            r * 4 == header_len(self@),
    {
        proof {
            use_type_invariant(self);
            lemma_byte_fields(self.data@[12]);
        }
        (be2leu8(self.data, 12) & 0b0000_1111) >> 0
    }

    /// The lowest bit of byte 13.
    pub fn cwr(&self) -> (r: u8)
        ensures
            r == self@[13] % 2,
    {
        proof {
            use_type_invariant(self);
            lemma_byte_fields(self.data@[13]);
        }
        (be2leu8(self.data, 13) & 0b0000_0001) >> 0
    }

    /// The second lowest bit of byte 13.
    pub fn ece(&self) -> (r: u8)
        ensures
            r == self@[13] / 2 % 2,
    {
        proof {
            use_type_invariant(self);
            lemma_byte_fields(self.data@[13]);
        }
        (be2leu8(self.data, 13) & 0b0000_0010) >> 1
    }

    /// The third lowest bit of byte 13.
    pub fn urg(&self) -> (r: u8)
        ensures
            r == self@[13] / 4 % 2,
    {
        proof {
            use_type_invariant(self);
            lemma_byte_fields(self.data@[13]);
        }
        (be2leu8(self.data, 13) & 0b0000_0100) >> 2
    }

    /// The fourth lowest bit of byte 13.
    pub fn ack(&self) -> (r: u8)
        ensures
            r == self@[13] / 8 % 2,
    {
        proof {
            use_type_invariant(self);
            lemma_byte_fields(self.data@[13]);
        }
        (be2leu8(self.data, 13) & 0b0000_1000) >> 3
    }

    /// The fifth lowest bit of byte 13.
    pub fn psh(&self) -> (r: u8)
        ensures
            r == self@[13] / 16 % 2,
    {
        proof {
            use_type_invariant(self);
            lemma_byte_fields(self.data@[13]);
        }
        (be2leu8(self.data, 13) & 0b0001_0000) >> 4
    }

    /// The sixth lowest bit of byte 13.
    pub fn rst(&self) -> (r: u8)
        ensures
            r == self@[13] / 32 % 2,
    {
        proof {
            use_type_invariant(self);
            lemma_byte_fields(self.data@[13]);
        }
        (be2leu8(self.data, 13) & 0b0010_0000) >> 5
    }

    /// The seventh lowest bit of byte 13.
    pub fn syn(&self) -> (r: u8)
        ensures
            r == self@[13] / 64 % 2,
    {
        proof {
            use_type_invariant(self);
            lemma_byte_fields(self.data@[13]);
        }
        (be2leu8(self.data, 13) & 0b0100_0000) >> 6
    }

    /// The highest bit of byte 13.
    pub fn fin(&self) -> (r: u8)
        ensures
            r == self@[13] / 128,
    {
        proof {
            use_type_invariant(self);
            lemma_byte_fields(self.data@[13]);
        }
        (be2leu8(self.data, 13) & 0b1000_0000) >> 7
    }

    /// The window size: bytes 14 and 15, the first being the low one.
    pub fn window_size(&self) -> (r: u16)
        ensures
            r == le_value(self@, 14, 2),
    {
        proof {
            use_type_invariant(self);
        }
        be2leu16(self.data, 14)
    }

    /// The checksum that the header carries: bytes 16 and 17, the first
    /// being the low one. It is not checked.
    pub fn check_sum(&self) -> (r: u16)
        ensures
            r == le_value(self@, 16, 2),
    {
        proof {
            use_type_invariant(self);
        }
        be2leu16(self.data, 16)
    }

    /// The urgent pointer: bytes 18 and 19, the first being the low one.
    pub fn urgent_pointer(&self) -> (r: u16)
        ensures
            r == le_value(self@, 18, 2),
    {
        proof {
            use_type_invariant(self);
        }
        be2leu16(self.data, 18)
    }

    /// The header length in bytes, which never exceeds the segment.
    pub fn header_size(&self) -> (r: usize)
        ensures
            r == header_len(self@),
            r <= self@.len(),
            rejection(self@) is None,
    {
        proof {
            use_type_invariant(self);
        }
        self.data_offset() as usize * 4
    }

    /// The bytes behind the declared header.
    pub fn raw_payload(&self) -> (r: &[u8])
        ensures
            r@ == self@.subrange(header_len(self@), self@.len() as int),
            r@.len() == self@.len() - header_len(self@),
    {
        proof {
            use_type_invariant(self);
        }
        &self.data[self.header_size()..self.data.len()]
    }

    /// A cursor at the first of the options that the header holds.
    pub fn options(&self) -> (r: OptionIter<'a>)
        ensures
            r.bytes() == option_bytes(self@),
            r.position() == 0,
    {
        proof {
            use_type_invariant(self);
        }
        let end = self.header_size();
        let options = if end > FIXED_HEADER_SIZE {
            &self.data[FIXED_HEADER_SIZE..end]
        } else {
            &self.data[FIXED_HEADER_SIZE..FIXED_HEADER_SIZE]
        };
        OptionIter { data: options, index: 0 }
    }

    /// The segment as text: a line for each of its fields and options.
    pub fn to_text(&self) -> (r: String)
        ensures
            r@ == listing(self@),
    {
        let mut text = String::from_str("    Tcp\n");
        push_field(&mut text, "        source_port:           ", self.source_port() as usize);
        push_field(&mut text, "        destination_port:      ", self.destination_port() as usize);
        push_field(&mut text, "        sequence_number:       ", self.sequence_number() as usize);
        push_field(
            &mut text,
            "        acknowledgment_number: ",
            self.acknowledgment_number() as usize,
        );
        push_field(&mut text, "        reserved:              ", self.reserved() as usize);
        push_field(&mut text, "        data_offset:           ", self.data_offset() as usize);
        push_field(&mut text, "        cwr:                   ", self.cwr() as usize);
        push_field(&mut text, "        ece:                   ", self.ece() as usize);
        push_field(&mut text, "        urg:                   ", self.urg() as usize);
        push_field(&mut text, "        ack:                   ", self.ack() as usize);
        push_field(&mut text, "        psh:                   ", self.psh() as usize);
        push_field(&mut text, "        rst:                   ", self.rst() as usize);
        push_field(&mut text, "        syn:                   ", self.syn() as usize);
        push_field(&mut text, "        fin:                   ", self.fin() as usize);
        push_field(&mut text, "        window_size:           ", self.window_size() as usize);
        push_field(&mut text, "        check_sum:             ", self.check_sum() as usize);
        push_field(&mut text, "        urgent_pointer:        ", self.urgent_pointer() as usize);
        let ghost fields = text@;
        let options = self.options().collect();
        let ghost all = options_from(option_bytes(self@), 0);
        let mut i: usize = 0;
        while i < options.len()
            invariant
                i <= options.len(),
                options@ == all,
                text@ + option_listing(all, i as int) == fields + option_listing(all, 0),
            decreases options.len() - i,
        {
            let ghost before = text@;
            let mut label = String::from_str("        option[");
            push_number(&mut label, i);
            label.append("]:        ");
            crate::text::push_text_field(&mut text, label.as_str(), options[i].to_text().as_str());
            assert(text@ + option_listing(all, i + 1) =~= before + option_listing(all, i as int));
            i += 1;
        }
        assert(text@ =~= fields + option_listing(all, 0));
        text
    }
}

} // verus!
