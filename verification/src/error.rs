//! The conditions under which decoding a layer fails.

use crate::text::{decimal, push_number};
use vstd::prelude::*;
use vstd::string::StringExecFns;

verus! {

/// The layer whose fixed header did not fit into the bytes it was given.
#[derive(Debug, Clone, Copy, PartialEq, Eq, Structural)]
pub enum Layer {
    MacAddress,
    Ethernet,
    Ipv4,
    Tcp,
    BitField,
}

/// A validated header field that holds an impossible value.
#[derive(Debug, Clone, Copy, PartialEq, Eq, Structural)]
pub enum Violation {
    /// The version nibble of an IPv4 header is not 4.
    VersionMismatch { found: u8 },
    /// The header length of an IPv4 header, in 32-bit words, is outside 5..=20.
    HeaderLengthOutOfRange { found: u8 },
    /// The reserved bit of the second IPv4 header byte is set.
    ReservedBitSet,
    /// A TCP header declares more bytes than the segment holds.
    HeaderTooLarge { limit: usize, declared: usize },
}

/// A well-formed input that this library does not decode.
#[derive(Debug, Clone, Copy, PartialEq, Eq, Structural)]
pub enum Unsupported {
    /// An Ethernet payload other than IPv4.
    EthernetPayload,
    /// An IPv4 payload carried over UDP.
    Udp,
    /// An IPv4 payload whose protocol number is neither TCP nor UDP.
    UnknownProtocol,
    /// A TCP segment reached a visitor that supplies no TCP hook.
    TcpHook,
}

/// Why decoding failed.
#[derive(Debug, Clone, Copy, PartialEq, Eq, Structural)]
pub enum Error {
    /// The buffer is shorter than the fixed header of `layer`.
    TooShort { layer: Layer, needed: usize, got: usize },
    /// A validated field holds an impossible value.
    StructuralViolation(Violation),
    /// The input is well formed but not supported.
    Unimplemented(Unsupported),
    /// A bit range spans more than 64 bits.
    InvalidRange { width: usize },
}

impl Layer {
    /// The name of the layer at the head of a message.
    pub open spec fn name_text(self) -> Seq<char> {
        match self {
            Layer::MacAddress => "MacAddress"@,
            Layer::Ethernet => "Ethernet"@,
            Layer::Ipv4 => "Ipv4"@,
            Layer::Tcp => "Tcp"@,
            Layer::BitField => "Bit range"@,
        }
    }

    /// The name of the layer at the head of a message.
    pub fn name(&self) -> (r: String)
        ensures
            r@ == self.name_text(),
    {
        match self {
            Layer::MacAddress => String::from_str("MacAddress"),
            Layer::Ethernet => String::from_str("Ethernet"),
            Layer::Ipv4 => String::from_str("Ipv4"),
            Layer::Tcp => String::from_str("Tcp"),
            Layer::BitField => String::from_str("Bit range"),
        }
    }
}

impl Violation {
    /// What is wrong with the field, in words.
    pub open spec fn message_text(self) -> Seq<char> {
        match self {
            Violation::VersionMismatch { found } => "Version must be 4"@,
            Violation::HeaderLengthOutOfRange { found } => if found < 5 {
                "Header length too small"@
            } else {
                "Header length too big"@
            },
            Violation::ReservedBitSet => "Reserved flag is not 0"@,
            Violation::HeaderTooLarge { limit, declared } => "Tcp header size too big, expected at most "@
                + decimal(limit as nat) + ", got "@ + decimal(declared as nat),
        }
    }

    /// What is wrong with the field, in words.
    pub fn message(&self) -> (r: String)
        ensures
            r@ == self.message_text(),
    {
        match self {
            Violation::VersionMismatch { found } => String::from_str("Version must be 4"),
            Violation::HeaderLengthOutOfRange { found } => if *found < 5 {
                String::from_str("Header length too small")
            } else {
                String::from_str("Header length too big")
            },
            Violation::ReservedBitSet => String::from_str("Reserved flag is not 0"),
            Violation::HeaderTooLarge { limit, declared } => {
                let mut text = String::from_str("Tcp header size too big, expected at most ");
                push_number(&mut text, *limit);
                text.append(", got ");
                push_number(&mut text, *declared);
                text
            },
        }
    }
}

impl Unsupported {
    /// What is not supported, in words.
    pub open spec fn message_text(self) -> Seq<char> {
        match self {
            Unsupported::EthernetPayload => "Ethernet payload is not implemented"@,
            Unsupported::Udp => "UDP not implemented"@,
            Unsupported::UnknownProtocol => "Unknown protocol"@,
            Unsupported::TcpHook => "Not implemented"@,
        }
    }

    /// What is not supported, in words.
    pub fn message(&self) -> (r: String)
        ensures
            r@ == self.message_text(),
    {
        match self {
            Unsupported::EthernetPayload => String::from_str("Ethernet payload is not implemented"),
            Unsupported::Udp => String::from_str("UDP not implemented"),
            Unsupported::UnknownProtocol => String::from_str("Unknown protocol"),
            Unsupported::TcpHook => String::from_str("Not implemented"),
        }
    }
}

impl Error {
    /// Whether the error reports a field with an impossible value.
    pub open spec fn is_structural(self) -> bool {
        self is StructuralViolation
    }

    /// What went wrong, in words.
    pub open spec fn message_text(self) -> Seq<char> {
        match self {
            Error::TooShort { layer, needed, got } => if layer == Layer::MacAddress {
                layer.name_text() + " needs "@ + decimal(needed as nat) + " bytes, got "@ + decimal(
                    got as nat,
                )
            } else {
                layer.name_text() + " data too small, expected at least "@ + decimal(needed as nat)
                    + ", got "@ + decimal(got as nat)
            },
            Error::StructuralViolation(violation) => violation.message_text(),
            Error::Unimplemented(unsupported) => unsupported.message_text(),
            Error::InvalidRange { width } => "Invalid range, must be 1-64, got "@ + decimal(
                width as nat,
            ),
        }
    }

    /// What went wrong, in words.
    pub fn message(&self) -> (r: String)
        ensures
            r@ == self.message_text(),
    {
        match self {
            Error::TooShort { layer, needed, got } => {
                let mut text = layer.name();
                if *layer == Layer::MacAddress {
                    text.append(" needs ");
                    push_number(&mut text, *needed);
                    text.append(" bytes, got ");
                } else {
                    text.append(" data too small, expected at least ");
                    push_number(&mut text, *needed);
                    text.append(", got ");
                }
                push_number(&mut text, *got);
                text
            },
            Error::StructuralViolation(violation) => violation.message(),
            Error::Unimplemented(unsupported) => unsupported.message(),
            Error::InvalidRange { width } => {
                let mut text = String::from_str("Invalid range, must be 1-64, got ");
                push_number(&mut text, *width);
                text
            },
        }
    }
}

} // verus!
