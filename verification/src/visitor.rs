//! The traversal of a captured frame, layer by layer.
//!
//! A visitor has one hook for each layer. Each hook has a default body that
//! decodes the next layer and hands it to the next hook, so that a visitor
//! overrides the layers it cares about and gets the traversal of the others.
//! What is stated of a hook is stated of its default body: a visitor that
//! supplies a body of its own decides what that hook returns. Where a
//! default body hands on to another hook, its result and the state in which
//! it leaves the visitor are those of a call of that hook, whoever supplies
//! it, on the visitor as it was.

use crate::dump::hex_dump;
use crate::error::{Error, Unsupported};
use crate::ethernet::{self, Ethernet};
use crate::ipv4::{self, IPv4};
use crate::report::{
    dump_lines, ethernet_fields, ethernet_lines, ethernet_outcome, ipv4_fields, ipv4_lines,
    ipv4_outcome, option_lines, packet_lines, packet_outcome, raw_lines, tcp_fields, tcp_lines,
};
use crate::tcp::{self, Tcp};
use crate::text::{decimal, push_number};
use vstd::prelude::*;
use vstd::string::StringExecFns;

verus! {

/// What a capture records about a frame besides its bytes.
#[derive(Debug, Clone, Copy, PartialEq, Eq, Structural)]
pub struct PacketHeader {
    /// Seconds of the capture time since the epoch.
    pub ts_sec: i64,
    /// Microseconds of the capture time within the second.
    pub ts_usec: i64,
    /// The number of bytes captured.
    pub caplen: u32,
    /// The number of bytes of the frame on the wire.
    pub len: u32,
}

/// A captured frame.
#[derive(Debug, Clone, Copy)]
pub struct Packet<'a> {
    pub header: PacketHeader,
    pub data: &'a [u8],
}

/// The hooks of a traversal, one for each layer, with a result of type `T`.
pub trait Visitor<'a, T>: Sized where T: Default {
    /// The hook for a captured frame. By default it hands the frame to
    /// `visit_packet_payload`.
    fn visit_packet(&mut self, packet: &Packet<'a>) -> (r: Result<T, Error>)
        default_ensures
            exists|inner: &mut Self|
                {
                    &&& #[trigger] call_ensures(Self::visit_packet_payload, (inner, packet), r)
                    &&& *inner == *old(self)
                    &&& *final(inner) == *final(self)
                },
    {
        self.visit_packet_payload(packet)
    }

    /// The hook for an Ethernet frame. By default it decodes the payload of
    /// the frame and hands it to `visit_ethernet_payload`; where the payload
    /// cannot be decoded, it returns the failure and leaves the visitor as
    /// it was.
    fn visit_ethernet(&mut self, packet: &Ethernet<'a>) -> (r: Result<T, Error>)
        default_ensures
            match ethernet::payload_failure(packet@) {
                Some(e) => r == Err::<T, Error>(e) && *final(self) == *old(self),
                None => exists|inner: &mut Self, payload: ethernet::Payload<'a>|
                    {
                        &&& #[trigger] call_ensures(
                            Self::visit_ethernet_payload,
                            (inner, &payload),
                            r,
                        )
                        &&& *inner == *old(self)
                        &&& *final(inner) == *final(self)
                        &&& ethernet::decoded_payload(packet@, payload)
                    },
            },
    {
        match packet.payload() {
            Ok(payload) => self.visit_ethernet_payload(&payload),
            Err(e) => Err(e),
        }
    }

    /// The hook for an IPv4 datagram. By default it decodes the payload of
    /// the datagram and hands it to `visit_ipv4_payload`; where the payload
    /// cannot be decoded, it returns the failure and leaves the visitor as
    /// it was.
    fn visit_ipv4(&mut self, packet: &IPv4<'a>) -> (r: Result<T, Error>)
        default_ensures
            match ipv4::payload_failure(packet@) {
                Some(e) => r == Err::<T, Error>(e) && *final(self) == *old(self),
                None => exists|inner: &mut Self, payload: ipv4::Payload<'a>|
                    {
                        &&& #[trigger] call_ensures(Self::visit_ipv4_payload, (inner, &payload), r)
                        &&& *inner == *old(self)
                        &&& *final(inner) == *final(self)
                        &&& ipv4::decoded_payload(packet@, payload)
                    },
            },
    {
        match packet.payload() {
            Ok(payload) => self.visit_ipv4_payload(&payload),
            Err(e) => Err(e),
        }
    }

    /// The hook for a TCP segment. There is no default way to go on from
    /// here: by default the segment is reported as not supported.
    fn visit_tcp(&mut self, packet: &Tcp<'a>) -> (r: Result<T, Error>)
        default_ensures
            r == Err::<T, Error>(Error::Unimplemented(Unsupported::TcpHook)),
            *final(self) == *old(self),
    {
        Err(Error::Unimplemented(Unsupported::TcpHook))
    }

    /// By default decodes the captured bytes as an Ethernet frame and hands
    /// it to `visit_ethernet`; where the bytes are no frame, it returns the
    /// failure and leaves the visitor as it was.
    fn visit_packet_payload(&mut self, packet: &Packet<'a>) -> (r: Result<T, Error>)
        default_ensures
            match ethernet::rejection(packet.data@) {
                Some(e) => r == Err::<T, Error>(e) && *final(self) == *old(self),
                None => exists|inner: &mut Self, frame: Ethernet<'a>|
                    {
                        &&& #[trigger] call_ensures(Self::visit_ethernet, (inner, &frame), r)
                        &&& *inner == *old(self)
                        &&& *final(inner) == *final(self)
                        &&& frame@ == packet.data@
                    },
            },
    {
        match Ethernet::from_bytes(packet.data) {
            Ok(payload) => self.visit_ethernet(&payload),
            Err(error) => Err(error),
        }
    }

    /// By default hands an IPv4 datagram to `visit_ipv4`, and fails for any
    /// other payload, leaving the visitor as it was.
    fn visit_ethernet_payload(&mut self, payload: &ethernet::Payload<'a>) -> (r: Result<T, Error>)
        default_ensures
            match *payload {
                ethernet::Payload::IPv4(datagram) => exists|inner: &mut Self|
                    {
                        &&& #[trigger] call_ensures(Self::visit_ipv4, (inner, &datagram), r)
                        &&& *inner == *old(self)
                        &&& *final(inner) == *final(self)
                    },
                ethernet::Payload::Invalid => r == Err::<T, Error>(
                    Error::Unimplemented(Unsupported::EthernetPayload),
                ) && *final(self) == *old(self),
            },
    {
        match payload {
            ethernet::Payload::IPv4(payload) => self.visit_ipv4(payload),
            ethernet::Payload::Invalid => Err(Error::Unimplemented(Unsupported::EthernetPayload)),
        }
    }

    /// By default hands a TCP segment to `visit_tcp`.
    fn visit_ipv4_payload(&mut self, payload: &ipv4::Payload<'a>) -> (r: Result<T, Error>)
        default_ensures
            match *payload {
                ipv4::Payload::Tcp(segment) => exists|inner: &mut Self|
                    {
                        &&& #[trigger] call_ensures(Self::visit_tcp, (inner, &segment), r)
                        &&& *inner == *old(self)
                        &&& *final(inner) == *final(self)
                    },
            },
    {
        match payload {
            ipv4::Payload::Tcp(payload) => self.visit_tcp(payload),
        }
    }

    /// The hook for the bytes that no layer claims. By default there is
    /// nothing to report of them: the result is the default value of `T`.
    fn visit_raw_payload(&mut self, payload: &[u8]) -> (r: Result<T, Error>)
        default_ensures
            r matches Ok(value) && call_ensures(T::default, (), value),
            *final(self) == *old(self),
    {
        Ok(T::default())
    }
}

/// A visitor that reports every layer it is shown, line by line.
pub struct Printer {
    indentation: usize,
    lines: Vec<String>,
}

impl Printer {
    /// The lines reported so far and not yet taken.
    pub closed spec fn view(&self) -> Seq<Seq<char>> {
        self.lines@.map_values(|line: String| line@)
    }

    /// The depth to which lines are indented.
    pub closed spec fn indentation(&self) -> nat {
        self.indentation as nat
    }

    /// Whether the printer is `before` with `lines` added.
    pub open spec fn extends(&self, before: &Self, lines: Seq<Seq<char>>) -> bool {
        self@ == before@ + lines && self.indentation() == before.indentation()
    }

    /// A printer that has reported nothing yet.
    pub fn new() -> (r: Self)
        ensures
            r@ == Seq::<Seq<char>>::empty(),
            r.indentation() == 0,
    {
        let r = Self { indentation: 0, lines: Vec::new() };
        assert(r@ =~= Seq::<Seq<char>>::empty());
        r
    }

    /// Hands out the lines reported so far, and forgets them.
    pub fn take_lines(&mut self) -> (r: Vec<String>)
        ensures
            r@.map_values(|line: String| line@) == old(self)@,
            final(self)@ == Seq::<Seq<char>>::empty(),
            final(self).indentation() == old(self).indentation(),
    {
        let mut out: Vec<String> = Vec::new();
        core::mem::swap(&mut out, &mut self.lines);
        assert(self@ =~= Seq::<Seq<char>>::empty());
        out
    }

    /// Adds a line.
    fn emit(&mut self, line: String)
        ensures
            final(self).extends(old(self), seq![line@]),
    {
        self.lines.push(line);
        assert(self@ =~= old(self)@ + seq![line@]);
    }

    /// Adds the line of a field that holds a number.
    fn emit_number(&mut self, label: &str, value: usize)
        ensures
            final(self).extends(old(self), seq![label@ + decimal(value as nat)]),
    {
        let mut line = String::from_str(label);
        push_number(&mut line, value);
        self.emit(line);
    }

    /// Adds the line of a field that holds a text.
    fn emit_text(&mut self, label: &str, value: String)
        ensures
            final(self).extends(old(self), seq![label@ + value@]),
    {
        let mut line = String::from_str(label);
        line.append(value.as_str());
        self.emit(line);
    }

    /// Adds the line that heads a layer: a number between two texts.
    fn emit_head(&mut self, label: &str, value: usize, end: &str)
        ensures
            final(self).extends(old(self), seq![label@ + decimal(value as nat) + end@]),
    {
        let mut line = String::from_str(label);
        push_number(&mut line, value);
        line.append(end);
        self.emit(line);
    }
}

impl<'a> Visitor<'a, ()> for Printer {
    /// Reports a captured frame between an opening and a closing line, and
    /// returns the first failure met on the way down to the TCP segment.
    fn visit_packet(&mut self, packet: &Packet<'a>) -> (r: Result<(), Error>)
        ensures
            r == packet_outcome(packet.data@),
            final(self).extends(old(self), packet_lines(packet.header, packet.data@)),
    {
        let mut head = String::from_str("---------- Packet [ size ");
        push_number(&mut head, packet.header.len as usize);
        head.append(" ] @ ");
        head.append(packet.header.time_of_day().as_str());
        head.append(" -----------------------------");
        self.emit(head);
        let result = self.visit_packet_payload(packet);
        self.emit(
            String::from_str(
                "---------------------------------------------------------------------------------",
            ),
        );
        assert(self@ =~= old(self)@ + packet_lines(packet.header, packet.data@));
        result
    }

    /// Reports the fields of a frame, then what the frame carries.
    fn visit_ethernet(&mut self, packet: &Ethernet<'a>) -> (r: Result<(), Error>)
        ensures
            r == ethernet_outcome(packet@),
            final(self).extends(old(self), ethernet_lines(packet@)),
    {
        self.emit_head("| - Ethernet [ payload size ", packet.raw_payload().len(), " ]");
        self.emit_text("|    Source                : ", packet.source().to_text());
        self.emit_text("|    Destination           : ", packet.destination().to_text());
        self.emit_text("|    Ether Type            : ", packet.ether_type().name());
        self.emit_number("|    Crc                   : ", packet.crc() as usize);
        assert(self@ =~= old(self)@ + ethernet_fields(packet@));
        let r = match packet.payload() {
            Ok(payload) => self.visit_ethernet_payload(&payload),
            Err(e) => Err(e),
        };
        assert(self@ =~= old(self)@ + ethernet_lines(packet@));
        r
    }

    /// Reports the fields of a datagram, then what the datagram carries.
    fn visit_ipv4(&mut self, packet: &IPv4<'a>) -> (r: Result<(), Error>)
        ensures
            r == ipv4_outcome(packet@),
            final(self).extends(old(self), ipv4_lines(packet@)),
    {
        self.emit_head("|- Ipv4 [ payload size ", packet.raw_payload().len(), " ]");
        self.emit_number("|    Header Length         : ", packet.header_length() as usize);
        self.emit_number("|    Version               : ", packet.version() as usize);
        self.emit_number("|    Reserved 1            : ", packet.reserved1() as usize);
        self.emit_number("|    Cost                  : ", packet.cost() as usize);
        self.emit_number("|    Reliability           : ", packet.reliability() as usize);
        self.emit_number("|    Throughput            : ", packet.throughput() as usize);
        self.emit_number("|    Delay                 : ", packet.delay() as usize);
        self.emit_number("|    Precedence            : ", packet.precedence() as usize);
        self.emit_number("|    Total Length          : ", packet.total_length() as usize);
        self.emit_number("|    Identification        : ", packet.identification() as usize);
        self.emit_number("|    Reserved 2            : ", packet.reserved2() as usize);
        self.emit_number("|    Df                    : ", packet.df() as usize);
        self.emit_number("|    Mf                    : ", packet.mf() as usize);
        self.emit_number("|    Fragment_offset       : ", packet.fragment_offset() as usize);
        self.emit_number("|    Time To Live          : ", packet.time_to_live() as usize);
        self.emit_text("|    Protocol              : ", packet.protocol().name());
        self.emit_number("|    Header Checksum       : ", packet.header_checksum() as usize);
        self.emit_text("|    Source Address        : ", packet.source_address().to_text());
        self.emit_text("|    Destination Address   : ", packet.destination_address().to_text());
        assert(self@ =~= old(self)@ + ipv4_fields(packet@));
        let r = match packet.payload() {
            Ok(payload) => self.visit_ipv4_payload(&payload),
            Err(e) => Err(e),
        };
        assert(self@ =~= old(self)@ + ipv4_lines(packet@));
        r
    }

    /// Reports the fields and options of a segment, then the bytes behind
    /// its header.
    fn visit_tcp(&mut self, packet: &Tcp<'a>) -> (r: Result<(), Error>)
        ensures
            r == Ok::<(), Error>(()),
            final(self).extends(old(self), tcp_lines(packet@)),
    {
        self.emit_head("| - Tcp [ payload size ", packet.raw_payload().len(), " ]");
        self.emit_number("|    Source Port           : ", packet.source_port() as usize);
        self.emit_number("|    Destination Port      : ", packet.destination_port() as usize);
        self.emit_number("|    Sequence Number       : ", packet.sequence_number() as usize);
        self.emit_number("|    Acknowledgment Number : ", packet.acknowledgment_number() as usize);
        self.emit_number("|    Reserved              : ", packet.reserved() as usize);
        self.emit_number("|    Data Offset           : ", packet.data_offset() as usize);
        self.emit_number("|    Cwr                   : ", packet.cwr() as usize);
        self.emit_number("|    Ece                   : ", packet.ece() as usize);
        self.emit_number("|    Urg                   : ", packet.urg() as usize);
        self.emit_number("|    Ack                   : ", packet.ack() as usize);
        self.emit_number("|    Psh                   : ", packet.psh() as usize);
        self.emit_number("|    Rst                   : ", packet.rst() as usize);
        self.emit_number("|    Syn                   : ", packet.syn() as usize);
        self.emit_number("|    Fin                   : ", packet.fin() as usize);
        self.emit_number("|    Window Size           : ", packet.window_size() as usize);
        self.emit_number("|    Check Sum             : ", packet.check_sum() as usize);
        self.emit_number("|    Urgent Pointer        : ", packet.urgent_pointer() as usize);
        assert(self@ =~= old(self)@ + tcp_fields(packet@));
        let ghost fields = self@;
        let options = packet.options().collect();
        let ghost all = tcp::options_from(tcp::option_bytes(packet@), 0);
        let mut i: usize = 0;
        while i < options.len()
            invariant
                i <= options.len(),
                options@ == all,
                self.indentation() == old(self).indentation(),
                self@ + option_lines(all, i as int) == fields + option_lines(all, 0),
            decreases options.len() - i,
        {
            let ghost before = self@;
            let mut line = String::from_str("|    Option[");
            push_number(&mut line, i);
            line.append("]             : ");
            line.append(options[i].to_text().as_str());
            self.emit(line);
            assert(self@ + option_lines(all, i + 1) =~= before + option_lines(all, i as int));
            i += 1;
        }
        assert(self@ =~= fields + option_lines(all, 0));
        let r = self.visit_raw_payload(packet.raw_payload());
        assert(self@ =~= old(self)@ + tcp_lines(packet@));
        r
    }

    /// Reports the number of the bytes, and their dump.
    fn visit_raw_payload(&mut self, payload: &[u8]) -> (r: Result<(), Error>)
        ensures
            r == Ok::<(), Error>(()),
            final(self).extends(old(self), raw_lines(payload@)),
    {
        self.emit_head("| - Payload  [ size ", payload.len(), " ]");
        let ghost headed = self@;
        let lines = hex_dump(payload);
        let mut i: usize = 0;
        while i < lines.len()
            invariant
                i <= lines.len(),
                lines@.len() == crate::dump::line_count(payload@.len() as int),
                forall|k: int|
                    0 <= k < lines@.len() ==> (#[trigger] lines@[k])@ == crate::dump::dump_line(
                        crate::dump::line_bytes(payload@, k),
                    ),
                self.indentation() == old(self).indentation(),
                self@ + dump_lines(payload@, i as int) == headed + dump_lines(payload@, 0),
            decreases lines.len() - i,
        {
            let ghost before = self@;
            self.emit(lines[i].clone());
            assert(self@ + dump_lines(payload@, i + 1) =~= before + dump_lines(payload@, i as int));
            i += 1;
        }
        assert(self@ =~= old(self)@ + raw_lines(payload@));
        Ok(())
    }
}

} // verus!
