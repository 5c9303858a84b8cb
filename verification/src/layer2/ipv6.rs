//! Internet Protocol version 6 headers.
use vstd::prelude::*;
use crate::bytes::{be16, be_u16, high_nibble, low_nibble, lower_nibble, upper_nibble};
use crate::layer::{ancestors_view, Layer, LayerView};
use crate::layer1::ethernet::EtherType;
use crate::layer2::ipv4::IpProtocol;
use crate::outcome::{decoded, rejected_at, short_by, Needed, Outcome, OutcomeView, RejectReason};

verus! {

/// The number of octets of the fixed IPv6 header.
pub const IPV6_HEADER_LEN: usize = 40;

/// The IPv6 decoder.
#[derive(Clone, Copy, Debug)]
pub struct Ipv6Parser;

/// A 128-bit IPv6 address as its eight 16-bit groups, in written order.
#[derive(Clone, Copy, Debug, PartialEq, Eq, Hash)]
pub struct Ipv6Addr(pub u16, pub u16, pub u16, pub u16, pub u16, pub u16, pub u16, pub u16);

impl Ipv6Addr {
    /// The address `a:b:c:d:e:f:g:h`.
    pub fn new(a: u16, b: u16, c: u16, d: u16, e: u16, f: u16, g: u16, h: u16) -> (r: Ipv6Addr)
        ensures
            r == Ipv6Addr(a, b, c, d, e, f, g, h),
    {
        Ipv6Addr(a, b, c, d, e, f, g, h)
    }
}

/// The fixed header of an IPv6 packet.
#[derive(Clone, Copy, Debug, PartialEq, Eq)]
pub struct Ipv6Packet {
    /// Protocol version, always 6
    pub version: u8,
    /// Differentiated services and congestion notification bits
    pub traffic_class: u8,
    /// Flow label, twenty bits
    pub flow_label: u32,
    /// Size of the payload in octets, extension headers included
    pub payload_length: u16,
    /// Protocol of the payload
    pub next_header: IpProtocol,
    /// Remaining number of hops
    pub hop_limit: u8,
    /// Source address
    pub src: Ipv6Addr,
    /// Destination address
    pub dst: Ipv6Addr,
}

/// Whether an IPv6 header may follow the given ancestors: no chain at all,
/// or a chain that ends in an Ethernet header announcing IPv6, or in an IPv4
/// or IPv6 header announcing encapsulated IPv6.
pub open spec fn ipv6_accepts(ancestors: Option<Seq<LayerView>>) -> bool {
    match ancestors {
        None => true,
        Some(chain) => chain.len() > 0 && match chain.last() {
            LayerView::Ethernet(eth) => eth.ethertype == EtherType::Ipv6,
            LayerView::Ipv4(outer) => outer.protocol == IpProtocol::Ipv6,
            LayerView::Ipv6(outer) => outer.next_header == IpProtocol::Ipv6,
            _ => false,
        },
    }
}

/// The eight groups of the address whose sixteen octets start at `at`.
pub open spec fn ipv6_addr_at(b: Seq<u8>, at: int) -> Ipv6Addr
    recommends
        0 <= at,
        at + 16 <= b.len(),
{
    Ipv6Addr(
        be16(b, at),
        be16(b, at + 2),
        be16(b, at + 4),
        be16(b, at + 6),
        be16(b, at + 8),
        be16(b, at + 10),
        be16(b, at + 12),
        be16(b, at + 14),
    )
}

/// The record that the first forty octets of `b` encode.
pub open spec fn ipv6_header(b: Seq<u8>) -> Ipv6Packet
    recommends
        b.len() >= IPV6_HEADER_LEN,
        IpProtocol::spec_from_u8(b[6]) is Some,
{
    Ipv6Packet {
        version: high_nibble(b[0]),
        traffic_class: (low_nibble(b[0]) as int * 16 + high_nibble(b[1]) as int) as u8,
        flow_label: (low_nibble(b[1]) as int * 65536 + be16(b, 2) as int) as u32,
        payload_length: be16(b, 4),
        next_header: IpProtocol::spec_from_u8(b[6]).unwrap(),
        hop_limit: b[7],
        src: ipv6_addr_at(b, 8),
        dst: ipv6_addr_at(b, 24),
    }
}

/// What decoding `b` as an IPv6 header gives, ancestors aside. The fields
/// are taken in the order of transmission, and the first one that is wrong
/// or cut short decides.
pub open spec fn ipv6_decode(b: Seq<u8>) -> OutcomeView {
    if b.len() == 0 {
        short_by(IPV6_HEADER_LEN as nat, 0)
    } else if high_nibble(b[0]) != 6 {
        rejected_at(RejectReason::Version, 0)
    } else if b.len() < 7 {
        short_by(IPV6_HEADER_LEN as nat, b.len())
    } else if IpProtocol::spec_from_u8(b[6]) is None {
        rejected_at(RejectReason::UnknownValue, 6)
    } else if b.len() < IPV6_HEADER_LEN {
        short_by(IPV6_HEADER_LEN as nat, b.len())
    } else {
        decoded(IPV6_HEADER_LEN as nat, LayerView::Ipv6(ipv6_header(b)))
    }
}

/// What the IPv6 decoder gives for `b` after the given ancestors.
pub open spec fn ipv6_parse(b: Seq<u8>, ancestors: Option<Seq<LayerView>>) -> OutcomeView {
    if ipv6_accepts(ancestors) {
        ipv6_decode(b)
    } else {
        rejected_at(RejectReason::Ancestor, 0)
    }
}

/// Reads the address whose sixteen octets start at `at`.
fn read_addr(input: &[u8], at: usize) -> (r: Ipv6Addr)
    requires
        at + 16 <= input@.len(),
    ensures
        r == ipv6_addr_at(input@, at as int),
{
    let total: usize = input.len();
    assert(at + 16 <= total);
    Ipv6Addr(
        be_u16(input, at),
        be_u16(input, at + 2),
        be_u16(input, at + 4),
        be_u16(input, at + 6),
        be_u16(input, at + 8),
        be_u16(input, at + 10),
        be_u16(input, at + 12),
        be_u16(input, at + 14),
    )
}

impl Ipv6Parser {
    /// Tests the end of the ancestor chain: an IPv6 header follows an
    /// Ethernet header whose type field says IPv6, an IPv4 header whose
    /// protocol field says IPv6, or an IPv6 header whose next header field
    /// says IPv6. Without a chain every input is tried.
    pub fn accepts(ancestors: Option<&Vec<Layer>>) -> (r: bool)
        ensures
            r == ipv6_accepts(ancestors_view(ancestors)),
    {
        match ancestors {
            None => true,
            Some(chain) => {
                let n: usize = chain.len();
                if n == 0 {
                    false
                } else {
                    match &chain[n - 1] {
                        Layer::Ethernet(eth) => eth.ethertype == EtherType::Ipv6,
                        Layer::Ipv4(outer) => outer.protocol == IpProtocol::Ipv6,
                        Layer::Ipv6(outer) => outer.next_header == IpProtocol::Ipv6,
                        _ => false,
                    }
                }
            },
        }
    }

    /// Decodes the fixed IPv6 header from the start of `input`, after
    /// checking that the ancestors allow one.
    pub fn parse(&mut self, input: &[u8], ancestors: Option<&Vec<Layer>>) -> (r: Outcome)
        ensures
            r@ == ipv6_parse(input@, ancestors_view(ancestors)),
            r matches Outcome::Decoded { consumed, layer: Layer::Ipv6(p) } ==> {
                &&& consumed == IPV6_HEADER_LEN
                &&& p.version == 6
            },
    {
        if !Self::accepts(ancestors) {
            return Outcome::Rejected { reason: RejectReason::Ancestor, offset: 0 };
        }
        let n: usize = input.len();
        if n == 0 {
            return Outcome::Incomplete(Needed::Size(IPV6_HEADER_LEN));
        }
        let version: u8 = upper_nibble(input[0]);
        if version != 6 {
            return Outcome::Rejected { reason: RejectReason::Version, offset: 0 };
        }
        if n < 7 {
            return Outcome::Incomplete(Needed::Size(IPV6_HEADER_LEN - n));
        }
        let next_header = match IpProtocol::from_u8(input[6]) {
            Some(p) => p,
            None => {
                return Outcome::Rejected { reason: RejectReason::UnknownValue, offset: 6 };
            },
        };
        if n < IPV6_HEADER_LEN {
            return Outcome::Incomplete(Needed::Size(IPV6_HEADER_LEN - n));
        }
        let flow_high: u32 = lower_nibble(input[1]) as u32;
        let flow_low: u32 = be_u16(input, 2) as u32;
        let packet = Ipv6Packet {
            version,
            traffic_class: lower_nibble(input[0]) * 16 + upper_nibble(input[1]),
            flow_label: flow_high * 65536 + flow_low,
            payload_length: be_u16(input, 4),
            next_header,
            hop_limit: input[7],
            src: read_addr(input, 8),
            dst: read_addr(input, 24),
        };
        Outcome::Decoded { consumed: IPV6_HEADER_LEN, layer: Layer::Ipv6(packet) }
    }
}

/// Every header that the IPv6 decoder decodes reads version 6. Where the
/// ancestors allow IPv6 and the first octet holds another version, the input
/// is turned down, however well-formed the rest is.
pub proof fn lemma_ipv6_version(b: Seq<u8>, ancestors: Option<Seq<LayerView>>)
    ensures
        ipv6_parse(b, ancestors) matches OutcomeView::Decoded { consumed, layer } ==> {
            &&& consumed == IPV6_HEADER_LEN
            &&& layer matches LayerView::Ipv6(p) && p.version == 6
        },
        ipv6_accepts(ancestors) && b.len() > 0 && b[0] / 16 != 6 ==> ipv6_parse(b, ancestors)
            == rejected_at(RejectReason::Version, 0),
{
}

impl Ipv6Parser {
    /// The short name of the protocol, for diagnostics.
    pub fn to_string(&self) -> (r: String)
        ensures
            r@ == "IPv6"@,
    {
        "IPv6".to_owned()
    }
}

} // verus!
