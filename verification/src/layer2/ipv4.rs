//! Internet Protocol version 4 headers.
use vstd::prelude::*;
use crate::bytes::{be16, be_u16, bit_field, bits_of, high_nibble, low_nibble, lower_nibble,
    upper_nibble, words_to_octets};
use crate::layer::{ancestors_view, Layer, LayerView};
use crate::layer1::ethernet::EtherType;
use crate::outcome::{decoded, rejected_at, short_by, Needed, Outcome, OutcomeView, RejectReason};

verus! {

/// The number of octets that the decoder reads: the header without options.
pub const IPV4_HEADER_LEN: usize = 20;

/// The IPv4 decoder.
#[derive(Clone, Copy, Debug)]
pub struct Ipv4Parser;

/// A 32-bit IPv4 address as its four octets, in the order they are written
/// in dotted-quad notation.
#[derive(Clone, Copy, Debug, PartialEq, Eq, Hash)]
pub struct Ipv4Addr(pub u8, pub u8, pub u8, pub u8);

impl Ipv4Addr {
    /// The address `a.b.c.d`.
    pub fn new(a: u8, b: u8, c: u8, d: u8) -> (r: Ipv4Addr)
        ensures
            r == Ipv4Addr(a, b, c, d),
    {
        Ipv4Addr(a, b, c, d)
    }
}

/// The header of an IPv4 packet, without options.
#[derive(Clone, Copy, Debug, PartialEq, Eq)]
pub struct Ipv4Packet {
    /// Protocol version, always 4
    pub version: u8,
    /// Header length in octets
    pub ihl: u8,
    /// Type of service
    pub tos: u8,
    /// Total packet length including the header
    pub length: u16,
    /// Identification for reassembly
    pub id: u16,
    /// Fragmentation flags, three bits
    pub flags: u8,
    /// Fragment offset, thirteen bits
    pub fragment_offset: u16,
    /// Time to live
    pub ttl: u8,
    /// Protocol of the payload
    pub protocol: IpProtocol,
    /// Header checksum
    pub checksum: u16,
    /// Source address
    pub src: Ipv4Addr,
    /// Destination address
    pub dst: Ipv4Addr,
}

/// The payload protocols of IPv4 and IPv6 that are decoded here.
#[derive(Clone, Copy, Debug, Hash, PartialEq, Eq, Structural)]
pub enum IpProtocol {
    /// Internet Control Message Protocol
    Icmp,
    /// IP encapsulation within IP
    IpIp,
    /// Transmission Control Protocol
    Tcp,
    /// User Datagram Protocol
    Udp,
    /// IPv6 encapsulation
    Ipv6,
    /// Internet Control Message Protocol version 6
    Icmpv6,
}

impl IpProtocol {
    /// The assigned protocol number.
    pub open spec fn number(self) -> u8 {
        match self {
            IpProtocol::Icmp => 1,
            IpProtocol::IpIp => 4,
            IpProtocol::Tcp => 6,
            IpProtocol::Udp => 17,
            IpProtocol::Ipv6 => 41,
            IpProtocol::Icmpv6 => 58,
        }
    }

    /// The table from protocol numbers to the protocols known here.
    pub open spec fn spec_from_u8(input: u8) -> Option<IpProtocol> {
        if input == 1 {
            Some(IpProtocol::Icmp)
        } else if input == 4 {
            Some(IpProtocol::IpIp)
        } else if input == 6 {
            Some(IpProtocol::Tcp)
        } else if input == 17 {
            Some(IpProtocol::Udp)
        } else if input == 41 {
            Some(IpProtocol::Ipv6)
        } else if input == 58 {
            Some(IpProtocol::Icmpv6)
        } else {
            None
        }
    }

    /// Converts a protocol number. Returns `None` for a number that stands
    /// for no protocol known here.
    pub fn from_u8(input: u8) -> (r: Option<IpProtocol>)
        ensures
            r == Self::spec_from_u8(input),
            r matches Some(p) ==> p.number() == input,
            r is None ==> forall|p: IpProtocol| p.number() != input,
    {
        match input {
            1 => Some(IpProtocol::Icmp),
            4 => Some(IpProtocol::IpIp),
            6 => Some(IpProtocol::Tcp),
            17 => Some(IpProtocol::Udp),
            41 => Some(IpProtocol::Ipv6),
            58 => Some(IpProtocol::Icmpv6),
            _ => None,
        }
    }
}

/// Whether an IPv4 header may follow the given ancestors: no chain at all,
/// or a chain that ends in an Ethernet header announcing IPv4 or in an IPv4
/// header announcing IP in IP.
pub open spec fn ipv4_accepts(ancestors: Option<Seq<LayerView>>) -> bool {
    match ancestors {
        None => true,
        Some(chain) => chain.len() > 0 && match chain.last() {
            LayerView::Ethernet(eth) => eth.ethertype == EtherType::Ipv4,
            LayerView::Ipv4(outer) => outer.protocol == IpProtocol::IpIp,
            _ => false,
        },
    }
}

/// The record that the first twenty octets of `b` encode.
pub open spec fn ipv4_header(b: Seq<u8>) -> Ipv4Packet
    recommends
        b.len() >= IPV4_HEADER_LEN,
        IpProtocol::spec_from_u8(b[9]) is Some,
{
    Ipv4Packet {
        version: high_nibble(b[0]),
        ihl: words_to_octets(low_nibble(b[0])),
        tos: b[1],
        length: be16(b, 2),
        id: be16(b, 4),
        flags: bit_field(b[6], 5, 3),
        fragment_offset: be16(b, 6) % 8192,
        ttl: b[8],
        protocol: IpProtocol::spec_from_u8(b[9]).unwrap(),
        checksum: be16(b, 10),
        src: Ipv4Addr(b[12], b[13], b[14], b[15]),
        dst: Ipv4Addr(b[16], b[17], b[18], b[19]),
    }
}

/// What decoding `b` as an IPv4 header gives, ancestors aside. The fields
/// are taken in the order of transmission, and the first one that is wrong
/// or cut short decides.
pub open spec fn ipv4_decode(b: Seq<u8>) -> OutcomeView {
    if b.len() == 0 {
        short_by(IPV4_HEADER_LEN as nat, 0)
    } else if high_nibble(b[0]) != 4 {
        rejected_at(RejectReason::Version, 0)
    } else if b.len() < 10 {
        short_by(IPV4_HEADER_LEN as nat, b.len())
    } else if IpProtocol::spec_from_u8(b[9]) is None {
        rejected_at(RejectReason::UnknownValue, 9)
    } else if b.len() < IPV4_HEADER_LEN {
        short_by(IPV4_HEADER_LEN as nat, b.len())
    } else {
        decoded(IPV4_HEADER_LEN as nat, LayerView::Ipv4(ipv4_header(b)))
    }
}

/// What the IPv4 decoder gives for `b` after the given ancestors.
pub open spec fn ipv4_parse(b: Seq<u8>, ancestors: Option<Seq<LayerView>>) -> OutcomeView {
    if ipv4_accepts(ancestors) {
        ipv4_decode(b)
    } else {
        rejected_at(RejectReason::Ancestor, 0)
    }
}

impl Ipv4Parser {
    /// Tests the end of the ancestor chain: an IPv4 header follows an
    /// Ethernet header whose type field says IPv4, or an IPv4 header whose
    /// protocol field says IP in IP. Without a chain every input is tried.
    pub fn accepts(ancestors: Option<&Vec<Layer>>) -> (r: bool)
        ensures
            r == ipv4_accepts(ancestors_view(ancestors)),
    {
        match ancestors {
            None => true,
            Some(chain) => {
                let n: usize = chain.len();
                if n == 0 {
                    false
                } else {
                    match &chain[n - 1] {
                        Layer::Ethernet(eth) => eth.ethertype == EtherType::Ipv4,
                        Layer::Ipv4(outer) => outer.protocol == IpProtocol::IpIp,
                        _ => false,
                    }
                }
            },
        }
    }

    /// Decodes an IPv4 header from the start of `input`, after checking
    /// that the ancestors allow one.
    pub fn parse(&mut self, input: &[u8], ancestors: Option<&Vec<Layer>>) -> (r: Outcome)
        ensures
            r@ == ipv4_parse(input@, ancestors_view(ancestors)),
            r matches Outcome::Decoded { consumed, layer: Layer::Ipv4(p) } ==> {
                &&& consumed == IPV4_HEADER_LEN
                &&& p.version == 4
                &&& p.ihl == 4 * (input@[0] % 16)
            },
    {
        if !Self::accepts(ancestors) {
            return Outcome::Rejected { reason: RejectReason::Ancestor, offset: 0 };
        }
        let n: usize = input.len();
        if n == 0 {
            return Outcome::Incomplete(Needed::Size(IPV4_HEADER_LEN));
        }
        let version: u8 = upper_nibble(input[0]);
        if version != 4 {
            return Outcome::Rejected { reason: RejectReason::Version, offset: 0 };
        }
        if n < 10 {
            return Outcome::Incomplete(Needed::Size(IPV4_HEADER_LEN - n));
        }
        let protocol = match IpProtocol::from_u8(input[9]) {
            Some(p) => p,
            None => {
                return Outcome::Rejected { reason: RejectReason::UnknownValue, offset: 9 };
            },
        };
        if n < IPV4_HEADER_LEN {
            return Outcome::Incomplete(Needed::Size(IPV4_HEADER_LEN - n));
        }
        let packet = Ipv4Packet {
            version,
            ihl: lower_nibble(input[0]) * 4,
            tos: input[1],
            length: be_u16(input, 2),
            id: be_u16(input, 4),
            flags: bits_of(input[6], 5, 3),
            fragment_offset: be_u16(input, 6) % 8192,
            ttl: input[8],
            protocol,
            checksum: be_u16(input, 10),
            src: Ipv4Addr(input[12], input[13], input[14], input[15]),
            dst: Ipv4Addr(input[16], input[17], input[18], input[19]),
        };
        Outcome::Decoded { consumed: IPV4_HEADER_LEN, layer: Layer::Ipv4(packet) }
    }
}

/// Every header that the IPv4 decoder decodes reads version 4, and its
/// header length in octets is four times the low nibble of the first octet.
/// Where the ancestors allow IPv4 and the first octet holds another
/// version, the input is turned down, whatever follows.
pub proof fn lemma_ipv4_version_and_length(b: Seq<u8>, ancestors: Option<Seq<LayerView>>)
    ensures
        ipv4_parse(b, ancestors) matches OutcomeView::Decoded { consumed, layer } ==> {
            &&& consumed == IPV4_HEADER_LEN
            &&& layer matches LayerView::Ipv4(p) && p.version == 4 && p.ihl == 4 * (b[0] % 16)
        },
        ipv4_accepts(ancestors) && b.len() > 0 && b[0] / 16 != 4 ==> ipv4_parse(b, ancestors)
            == rejected_at(RejectReason::Version, 0),
{
}

impl Ipv4Parser {
    /// The short name of the protocol, for diagnostics.
    pub fn to_string(&self) -> (r: String)
        ensures
            r@ == "IPv4"@,
    {
        "IPv4".to_owned()
    }
}

} // verus!
