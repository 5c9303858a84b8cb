//! Internet Control Message Protocol messages.
use vstd::prelude::*;
use crate::bytes::{be16, be_u16, copy_range};
use crate::layer::{ancestors_view, Layer, LayerView};
use crate::layer2::ipv4::IpProtocol;
use crate::outcome::{decoded, rejected_at, short_by, Needed, Outcome, OutcomeView, RejectReason};

verus! {

/// The number of octets before the body of a message: type, code and
/// checksum.
pub const ICMP_HEADER_LEN: usize = 4;

/// The number of octets before the payload of an echo message.
pub const ICMP_ECHO_LEN: usize = 8;

/// The ICMP decoder.
#[derive(Clone, Copy, Debug)]
pub struct IcmpParser;

/// The ICMP message types that are decoded.
#[derive(Clone, Copy, Debug, PartialEq, Eq, Hash, Structural)]
pub enum IcmpType {
    /// Echo reply
    EchoReply,
    /// Destination unreachable
    DestinationUnreachable,
    /// Source quench
    SourceQuench,
    /// Redirect
    Redirect,
    /// Echo request
    EchoRequest,
    /// Time exceeded
    TimeExceeded,
    /// Parameter problem
    ParameterProblem,
    /// Timestamp request
    Timestamp,
    /// Timestamp reply
    TimestampReply,
}

impl IcmpType {
    /// The table from the type field to the message types known here.
    pub open spec fn spec_from_u8(input: u8) -> Option<IcmpType> {
        if input == 0 {
            Some(IcmpType::EchoReply)
        } else if input == 3 {
            Some(IcmpType::DestinationUnreachable)
        } else if input == 4 {
            Some(IcmpType::SourceQuench)
        } else if input == 5 {
            Some(IcmpType::Redirect)
        } else if input == 8 {
            Some(IcmpType::EchoRequest)
        } else if input == 11 {
            Some(IcmpType::TimeExceeded)
        } else if input == 12 {
            Some(IcmpType::ParameterProblem)
        } else if input == 13 {
            Some(IcmpType::Timestamp)
        } else if input == 14 {
            Some(IcmpType::TimestampReply)
        } else {
            None
        }
    }

    /// Whether messages of this type carry an echo body.
    pub open spec fn is_echo(self) -> bool {
        self == IcmpType::EchoRequest || self == IcmpType::EchoReply
    }

    /// Converts the type field. Values outside the table give `None`.
    pub fn from_u8(input: u8) -> (r: Option<IcmpType>)
        ensures
            r == Self::spec_from_u8(input),
    {
        match input {
            0 => Some(IcmpType::EchoReply),
            3 => Some(IcmpType::DestinationUnreachable),
            4 => Some(IcmpType::SourceQuench),
            5 => Some(IcmpType::Redirect),
            8 => Some(IcmpType::EchoRequest),
            11 => Some(IcmpType::TimeExceeded),
            12 => Some(IcmpType::ParameterProblem),
            13 => Some(IcmpType::Timestamp),
            14 => Some(IcmpType::TimestampReply),
            _ => None,
        }
    }
}

/// The body of an echo request or an echo reply.
#[derive(Clone, Debug, PartialEq, Eq)]
pub struct IcmpEcho {
    /// Identifier that pairs requests with replies
    pub identifier: u16,
    /// Sequence number within one identifier
    pub sequence_number: u16,
    /// The data that is echoed
    pub payload: Vec<u8>,
}

/// The mathematical value of an [`IcmpEcho`].
pub struct IcmpEchoView {
    pub identifier: u16,
    pub sequence_number: u16,
    pub payload: Seq<u8>,
}

impl View for IcmpEcho {
    type V = IcmpEchoView;

    open spec fn view(&self) -> IcmpEchoView {
        IcmpEchoView {
            identifier: self.identifier,
            sequence_number: self.sequence_number,
            payload: self.payload@,
        }
    }
}

/// What follows the first four octets of a message.
#[derive(Clone, Debug, PartialEq, Eq)]
pub enum IcmpData {
    /// An echo body
    Echo(IcmpEcho),
    /// A body that is left undecoded
    Other,
}

/// The mathematical value of an [`IcmpData`].
pub enum IcmpDataView {
    Echo(IcmpEchoView),
    Other,
}

impl View for IcmpData {
    type V = IcmpDataView;

    open spec fn view(&self) -> IcmpDataView {
        match *self {
            IcmpData::Echo(e) => IcmpDataView::Echo(e@),
            IcmpData::Other => IcmpDataView::Other,
        }
    }
}

/// An ICMP message.
#[derive(Clone, Debug, PartialEq, Eq)]
pub struct IcmpPacket {
    /// Message type
    pub message_type: IcmpType,
    /// Subtype of the message
    pub code: u8,
    /// Checksum over the message
    pub checksum: u16,
    /// Body of the message
    pub data: IcmpData,
}

/// The mathematical value of an [`IcmpPacket`].
pub struct IcmpPacketView {
    pub message_type: IcmpType,
    pub code: u8,
    pub checksum: u16,
    pub data: IcmpDataView,
}

impl View for IcmpPacket {
    type V = IcmpPacketView;

    open spec fn view(&self) -> IcmpPacketView {
        IcmpPacketView {
            message_type: self.message_type,
            code: self.code,
            checksum: self.checksum,
            data: self.data@,
        }
    }
}

/// Whether an ICMP message may follow the given ancestors: no chain at all,
/// or a chain that ends in an IPv4 header announcing ICMP.
pub open spec fn icmp_accepts(ancestors: Option<Seq<LayerView>>) -> bool {
    match ancestors {
        None => true,
        Some(chain) => chain.len() > 0 && match chain.last() {
            LayerView::Ipv4(ip) => ip.protocol == IpProtocol::Icmp,
            _ => false,
        },
    }
}

/// The echo body in `b`: identifier and sequence number after the first
/// four octets, then the payload up to the end of the input.
pub open spec fn echo_body(b: Seq<u8>) -> IcmpDataView
    recommends
        b.len() >= 8,
{
    IcmpDataView::Echo(
        IcmpEchoView { identifier: be16(b, 4), sequence_number: be16(b, 6), payload: b.skip(8) },
    )
}

/// What decoding `b` as an ICMP message gives, ancestors aside. An echo
/// message takes the whole input, any other message its first four octets.
pub open spec fn icmp_decode(b: Seq<u8>) -> OutcomeView {
    if b.len() == 0 {
        short_by(4, 0)
    } else if IcmpType::spec_from_u8(b[0]) is None {
        rejected_at(RejectReason::UnknownValue, 0)
    } else if b.len() < 4 {
        short_by(4, b.len())
    } else if !IcmpType::spec_from_u8(b[0]).unwrap().is_echo() {
        decoded(
            4,
            LayerView::Icmp(
                IcmpPacketView {
                    message_type: IcmpType::spec_from_u8(b[0]).unwrap(),
                    code: b[1],
                    checksum: be16(b, 2),
                    data: IcmpDataView::Other,
                },
            ),
        )
    } else if b.len() < 8 {
        short_by(8, b.len())
    } else {
        decoded(
            b.len(),
            LayerView::Icmp(
                IcmpPacketView {
                    message_type: IcmpType::spec_from_u8(b[0]).unwrap(),
                    code: b[1],
                    checksum: be16(b, 2),
                    data: echo_body(b),
                },
            ),
        )
    }
}

/// What the ICMP decoder gives for `b` after the given ancestors.
pub open spec fn icmp_parse(b: Seq<u8>, ancestors: Option<Seq<LayerView>>) -> OutcomeView {
    if icmp_accepts(ancestors) {
        icmp_decode(b)
    } else {
        rejected_at(RejectReason::Ancestor, 0)
    }
}

/// Reads the echo body of a message of at least eight octets.
pub fn read_echo(input: &[u8]) -> (r: IcmpData)
    requires
        input@.len() >= 8,
    ensures
        r@ == echo_body(input@),
{
    let n: usize = input.len();
    let echo = IcmpEcho {
        identifier: be_u16(input, 4),
        sequence_number: be_u16(input, 6),
        payload: copy_range(input, 8, n),
    };
    IcmpData::Echo(echo)
}

impl IcmpParser {
    /// Tests the end of the ancestor chain: an ICMP message follows an IPv4
    /// header that names ICMP as its payload. Without a chain every input
    /// is tried.
    pub fn accepts(ancestors: Option<&Vec<Layer>>) -> (r: bool)
        ensures
            r == icmp_accepts(ancestors_view(ancestors)),
    {
        match ancestors {
            None => true,
            Some(chain) => {
                let n: usize = chain.len();
                if n == 0 {
                    false
                } else {
                    match &chain[n - 1] {
                        Layer::Ipv4(ip) => ip.protocol == IpProtocol::Icmp,
                        _ => false,
                    }
                }
            },
        }
    }

    /// Decodes an ICMP message from the start of `input`, after checking
    /// that the ancestors allow one.
    pub fn parse(&mut self, input: &[u8], ancestors: Option<&Vec<Layer>>) -> (r: Outcome)
        ensures
            r@ == icmp_parse(input@, ancestors_view(ancestors)),
    {
        if !Self::accepts(ancestors) {
            return Outcome::Rejected { reason: RejectReason::Ancestor, offset: 0 };
        }
        let n: usize = input.len();
        if n == 0 {
            return Outcome::Incomplete(Needed::Size(ICMP_HEADER_LEN));
        }
        let message_type = match IcmpType::from_u8(input[0]) {
            Some(t) => t,
            None => {
                return Outcome::Rejected { reason: RejectReason::UnknownValue, offset: 0 };
            },
        };
        if n < ICMP_HEADER_LEN {
            return Outcome::Incomplete(Needed::Size(ICMP_HEADER_LEN - n));
        }
        let code: u8 = input[1];
        let checksum: u16 = be_u16(input, 2);
        let echo: bool = match message_type {
            IcmpType::EchoRequest => true,
            IcmpType::EchoReply => true,
            _ => false,
        };
        if !echo {
            let packet = IcmpPacket { message_type, code, checksum, data: IcmpData::Other };
            return Outcome::Decoded { consumed: ICMP_HEADER_LEN, layer: Layer::Icmp(packet) };
        }
        if n < ICMP_ECHO_LEN {
            return Outcome::Incomplete(Needed::Size(ICMP_ECHO_LEN - n));
        }
        let packet = IcmpPacket { message_type, code, checksum, data: read_echo(input) };
        Outcome::Decoded { consumed: n, layer: Layer::Icmp(packet) }
    }
}

impl IcmpParser {
    /// The short name of the protocol, for diagnostics.
    pub fn to_string(&self) -> (r: String)
        ensures
            r@ == "ICMP"@,
    {
        "ICMP".to_owned()
    }
}

} // verus!
