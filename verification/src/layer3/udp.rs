//! User Datagram Protocol headers.
use vstd::prelude::*;
use crate::bytes::{be16, be_u16};
use crate::layer::{ancestors_view, Layer, LayerView};
use crate::layer2::ipv4::IpProtocol;
use crate::outcome::{decoded, rejected_at, short_by, Needed, Outcome, OutcomeView, RejectReason};

verus! {

/// The number of octets of a UDP header.
pub const UDP_HEADER_LEN: usize = 8;

/// The UDP decoder.
#[derive(Clone, Copy, Debug)]
pub struct UdpParser;

/// The header of a UDP datagram.
#[derive(Clone, Copy, Debug, PartialEq, Eq)]
pub struct UdpHeader {
    /// Source port
    pub source_port: u16,
    /// Destination port
    pub dest_port: u16,
    /// Length of header and data in octets
    pub length: u16,
    /// Checksum
    pub checksum: u16,
}

/// A decoded UDP datagram.
#[derive(Clone, Copy, Debug, PartialEq, Eq)]
pub struct UdpPacket {
    /// The datagram header
    pub header: UdpHeader,
}

/// Whether a UDP header may follow the given ancestors: no chain at all, or
/// a chain that ends in an IPv4 or IPv6 header announcing UDP.
pub open spec fn udp_accepts(ancestors: Option<Seq<LayerView>>) -> bool {
    match ancestors {
        None => true,
        Some(chain) => chain.len() > 0 && match chain.last() {
            LayerView::Ipv4(ip) => ip.protocol == IpProtocol::Udp,
            LayerView::Ipv6(ip) => ip.next_header == IpProtocol::Udp,
            _ => false,
        },
    }
}

/// The header that the first eight octets of `b` encode.
pub open spec fn udp_header(b: Seq<u8>) -> UdpPacket
    recommends
        b.len() >= UDP_HEADER_LEN,
{
    UdpPacket {
        header: UdpHeader {
            source_port: be16(b, 0),
            dest_port: be16(b, 2),
            length: be16(b, 4),
            checksum: be16(b, 6),
        },
    }
}

/// What decoding `b` as a UDP header gives, ancestors aside.
pub open spec fn udp_decode(b: Seq<u8>) -> OutcomeView {
    if b.len() < UDP_HEADER_LEN {
        short_by(UDP_HEADER_LEN as nat, b.len())
    } else {
        decoded(UDP_HEADER_LEN as nat, LayerView::Udp(udp_header(b)))
    }
}

/// What the UDP decoder gives for `b` after the given ancestors.
pub open spec fn udp_parse(b: Seq<u8>, ancestors: Option<Seq<LayerView>>) -> OutcomeView {
    if udp_accepts(ancestors) {
        udp_decode(b)
    } else {
        rejected_at(RejectReason::Ancestor, 0)
    }
}

impl UdpParser {
    /// Tests the end of the ancestor chain: a UDP header follows an IPv4 or
    /// IPv6 header that names UDP as its payload. Without a chain every
    /// input is tried.
    pub fn accepts(ancestors: Option<&Vec<Layer>>) -> (r: bool)
        ensures
            r == udp_accepts(ancestors_view(ancestors)),
    {
        match ancestors {
            None => true,
            Some(chain) => {
                let n: usize = chain.len();
                if n == 0 {
                    false
                } else {
                    match &chain[n - 1] {
                        Layer::Ipv4(ip) => ip.protocol == IpProtocol::Udp,
                        Layer::Ipv6(ip) => ip.next_header == IpProtocol::Udp,
                        _ => false,
                    }
                }
            },
        }
    }

    /// Decodes a UDP header from the start of `input`, after checking that
    /// the ancestors allow one.
    pub fn parse(&mut self, input: &[u8], ancestors: Option<&Vec<Layer>>) -> (r: Outcome)
        ensures
            r@ == udp_parse(input@, ancestors_view(ancestors)),
    {
        if !Self::accepts(ancestors) {
            return Outcome::Rejected { reason: RejectReason::Ancestor, offset: 0 };
        }
        let n: usize = input.len();
        if n < UDP_HEADER_LEN {
            return Outcome::Incomplete(Needed::Size(UDP_HEADER_LEN - n));
        }
        let header = UdpHeader {
            source_port: be_u16(input, 0),
            dest_port: be_u16(input, 2),
            length: be_u16(input, 4),
            checksum: be_u16(input, 6),
        };
        Outcome::Decoded { consumed: UDP_HEADER_LEN, layer: Layer::Udp(UdpPacket { header }) }
    }
}

/// An input of fewer than eight octets, after ancestors that allow UDP,
/// is incomplete by exactly the octets that are missing from the header.
pub proof fn lemma_udp_short(b: Seq<u8>, ancestors: Option<Seq<LayerView>>)
    requires
        udp_accepts(ancestors),
        b.len() < UDP_HEADER_LEN,
    ensures
        udp_parse(b, ancestors) == OutcomeView::Incomplete(
            Needed::Size((UDP_HEADER_LEN - b.len()) as usize),
        ),
{
}

impl UdpParser {
    /// The short name of the protocol, for diagnostics.
    pub fn to_string(&self) -> (r: String)
        ensures
            r@ == "UDP"@,
    {
        "UDP".to_owned()
    }
}

} // verus!
