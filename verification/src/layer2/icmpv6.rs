//! Internet Control Message Protocol version 6 messages.
use vstd::prelude::*;
use crate::bytes::{be16, be_u16};
use crate::layer::{ancestors_view, Layer, LayerView};
use crate::layer2::icmp::{echo_body, read_echo, IcmpData, IcmpDataView, ICMP_ECHO_LEN,
    ICMP_HEADER_LEN};
use crate::layer2::ipv4::IpProtocol;
use crate::outcome::{decoded, rejected_at, short_by, Needed, Outcome, OutcomeView, RejectReason};

verus! {

/// The ICMPv6 decoder.
#[derive(Clone, Copy, Debug)]
pub struct Icmpv6Parser;

/// The ICMPv6 message types that are decoded.
#[derive(Clone, Copy, Debug, PartialEq, Eq, Hash, Structural)]
pub enum Icmpv6Type {
    /// Destination unreachable
    DestinationUnreachable,
    /// Packet too big
    PacketTooBig,
    /// Time exceeded
    TimeExceeded,
    /// Parameter problem
    ParameterProblem,
    /// Echo request
    EchoRequest,
    /// Echo reply
    EchoReply,
}

impl Icmpv6Type {
    /// The table from the type field to the message types known here.
    pub open spec fn spec_from_u8(input: u8) -> Option<Icmpv6Type> {
        if input == 1 {
            Some(Icmpv6Type::DestinationUnreachable)
        } else if input == 2 {
            Some(Icmpv6Type::PacketTooBig)
        } else if input == 3 {
            Some(Icmpv6Type::TimeExceeded)
        } else if input == 4 {
            Some(Icmpv6Type::ParameterProblem)
        } else if input == 128 {
            Some(Icmpv6Type::EchoRequest)
        } else if input == 129 {
            Some(Icmpv6Type::EchoReply)
        } else {
            None
        }
    }

    /// Whether messages of this type carry an echo body.
    pub open spec fn is_echo(self) -> bool {
        self == Icmpv6Type::EchoRequest || self == Icmpv6Type::EchoReply
    }

    /// Converts the type field. Values outside the table give `None`.
    pub fn from_u8(input: u8) -> (r: Option<Icmpv6Type>)
        ensures
            r == Self::spec_from_u8(input),
    {
        match input {
            1 => Some(Icmpv6Type::DestinationUnreachable),
            2 => Some(Icmpv6Type::PacketTooBig),
            3 => Some(Icmpv6Type::TimeExceeded),
            4 => Some(Icmpv6Type::ParameterProblem),
            128 => Some(Icmpv6Type::EchoRequest),
            129 => Some(Icmpv6Type::EchoReply),
            _ => None,
        }
    }
}

/// An ICMPv6 message.
#[derive(Clone, Debug, PartialEq, Eq)]
pub struct Icmpv6Packet {
    /// Message type
    pub message_type: Icmpv6Type,
    /// Subtype of the message
    pub code: u8,
    /// Checksum over the message and a pseudo header
    pub checksum: u16,
    /// Body of the message
    pub data: IcmpData,
}

/// The mathematical value of an [`Icmpv6Packet`].
pub struct Icmpv6PacketView {
    pub message_type: Icmpv6Type,
    pub code: u8,
    pub checksum: u16,
    pub data: IcmpDataView,
}

impl View for Icmpv6Packet {
    type V = Icmpv6PacketView;

    open spec fn view(&self) -> Icmpv6PacketView {
        Icmpv6PacketView {
            message_type: self.message_type,
            code: self.code,
            checksum: self.checksum,
            data: self.data@,
        }
    }
}

/// Whether an ICMPv6 message may follow the given ancestors: no chain at
/// all, or a chain that ends in an IPv6 header announcing ICMPv6.
pub open spec fn icmpv6_accepts(ancestors: Option<Seq<LayerView>>) -> bool {
    match ancestors {
        None => true,
        Some(chain) => chain.len() > 0 && match chain.last() {
            LayerView::Ipv6(ip) => ip.next_header == IpProtocol::Icmpv6,
            _ => false,
        },
    }
}

/// What decoding `b` as an ICMPv6 message gives, ancestors aside. An echo
/// message takes the whole input, any other message its first four octets.
pub open spec fn icmpv6_decode(b: Seq<u8>) -> OutcomeView {
    if b.len() == 0 {
        short_by(4, 0)
    } else if Icmpv6Type::spec_from_u8(b[0]) is None {
        rejected_at(RejectReason::UnknownValue, 0)
    } else if b.len() < 4 {
        short_by(4, b.len())
    } else if !Icmpv6Type::spec_from_u8(b[0]).unwrap().is_echo() {
        decoded(
            4,
            LayerView::Icmpv6(
                Icmpv6PacketView {
                    message_type: Icmpv6Type::spec_from_u8(b[0]).unwrap(),
                    code: b[1],
                    checksum: be16(b, 2),
                    data: IcmpDataView::Other,
                },
            ),
        )
    } else if b.len() < 8 {
        short_by(8, b.len())
    } else {
        decoded(
            b.len(),
            LayerView::Icmpv6(
                Icmpv6PacketView {
                    message_type: Icmpv6Type::spec_from_u8(b[0]).unwrap(),
                    code: b[1],
                    checksum: be16(b, 2),
                    data: echo_body(b),
                },
            ),
        )
    }
}

/// What the ICMPv6 decoder gives for `b` after the given ancestors.
pub open spec fn icmpv6_parse(b: Seq<u8>, ancestors: Option<Seq<LayerView>>) -> OutcomeView {
    if icmpv6_accepts(ancestors) {
        icmpv6_decode(b)
    } else {
        rejected_at(RejectReason::Ancestor, 0)
    }
}

impl Icmpv6Parser {
    /// Tests the end of the ancestor chain: an ICMPv6 message follows an
    /// IPv6 header that names ICMPv6 as its payload. Without a chain every
    /// input is tried.
    pub fn accepts(ancestors: Option<&Vec<Layer>>) -> (r: bool)
        ensures
            r == icmpv6_accepts(ancestors_view(ancestors)),
    {
        match ancestors {
            None => true,
            Some(chain) => {
                let n: usize = chain.len();
                if n == 0 {
                    false
                } else {
                    match &chain[n - 1] {
                        Layer::Ipv6(ip) => ip.next_header == IpProtocol::Icmpv6,
                        _ => false,
                    }
                }
            },
        }
    }

    /// Decodes an ICMPv6 message from the start of `input`, after checking
    /// that the ancestors allow one.
    pub fn parse(&mut self, input: &[u8], ancestors: Option<&Vec<Layer>>) -> (r: Outcome)
        ensures
            r@ == icmpv6_parse(input@, ancestors_view(ancestors)),
    {
        if !Self::accepts(ancestors) {
            return Outcome::Rejected { reason: RejectReason::Ancestor, offset: 0 };
        }
        let n: usize = input.len();
        if n == 0 {
            return Outcome::Incomplete(Needed::Size(ICMP_HEADER_LEN));
        }
        let message_type = match Icmpv6Type::from_u8(input[0]) {
            Some(t) => t,
            None => {
                return Outcome::Rejected { reason: RejectReason::UnknownValue, offset: 0 };
            },
        };
        if n < ICMP_HEADER_LEN {
            return Outcome::Incomplete(Needed::Size(ICMP_HEADER_LEN - n));
        }
        let code: u8 = input[1];
        let checksum: u16 = be_u16(input, 2);
        let echo: bool = match message_type {
            Icmpv6Type::EchoRequest => true,
            Icmpv6Type::EchoReply => true,
            _ => false,
        };
        if !echo {
            let packet = Icmpv6Packet { message_type, code, checksum, data: IcmpData::Other };
            return Outcome::Decoded { consumed: ICMP_HEADER_LEN, layer: Layer::Icmpv6(packet) };
        }
        if n < ICMP_ECHO_LEN {
            return Outcome::Incomplete(Needed::Size(ICMP_ECHO_LEN - n));
        }
        let packet = Icmpv6Packet { message_type, code, checksum, data: read_echo(input) };
        Outcome::Decoded { consumed: n, layer: Layer::Icmpv6(packet) }
    }
}

impl Icmpv6Parser {
    /// The short name of the protocol, for diagnostics.
    pub fn to_string(&self) -> (r: String)
        ensures
            r@ == "ICMPv6"@,
    {
        "ICMPv6".to_owned()
    }
}

} // verus!
