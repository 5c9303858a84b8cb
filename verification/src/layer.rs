//! The layer value: one decoded record of any protocol, and the chain that
//! decoders append to.
use vstd::prelude::*;
use crate::layer1::arp::ArpPacket;
use crate::layer1::ethernet::EthernetPacket;
use crate::layer2::icmp::{IcmpPacket, IcmpPacketView};
use crate::layer2::icmpv6::{Icmpv6Packet, Icmpv6PacketView};
use crate::layer2::ipv4::Ipv4Packet;
use crate::layer2::ipv6::Ipv6Packet;
use crate::layer3::tcp::{TcpPacket, TcpPacketView};
use crate::layer3::tls::TlsPacket;
use crate::layer3::udp::UdpPacket;
use crate::layer4::http::{HttpPacket, HttpPacketView};
use crate::layer4::ntp::{NtpPacket, NtpPacketView};

verus! {

/// One decoded record, tagged with its protocol.
#[derive(Clone, Debug, PartialEq, Eq)]
pub enum Layer {
    /// An Ethernet header
    Ethernet(EthernetPacket),
    /// An ARP message
    Arp(ArpPacket),
    /// An IPv4 header
    Ipv4(Ipv4Packet),
    /// An IPv6 header
    Ipv6(Ipv6Packet),
    /// An ICMP message
    Icmp(IcmpPacket),
    /// An ICMPv6 message
    Icmpv6(Icmpv6Packet),
    /// A TCP header
    Tcp(TcpPacket),
    /// A UDP header
    Udp(UdpPacket),
    /// A TLS record header
    Tls(TlsPacket),
    /// An HTTP message head, or the marker for encrypted HTTP
    Http(HttpPacket),
    /// An NTP message
    Ntp(NtpPacket),
}

/// The mathematical value of a [`Layer`].
pub enum LayerView {
    Ethernet(EthernetPacket),
    Arp(ArpPacket),
    Ipv4(Ipv4Packet),
    Ipv6(Ipv6Packet),
    Icmp(IcmpPacketView),
    Icmpv6(Icmpv6PacketView),
    Tcp(TcpPacketView),
    Udp(UdpPacket),
    Tls(TlsPacket),
    Http(HttpPacketView),
    Ntp(NtpPacketView),
}

impl View for Layer {
    type V = LayerView;

    open spec fn view(&self) -> LayerView {
        match *self {
            Layer::Ethernet(p) => LayerView::Ethernet(p),
            Layer::Arp(p) => LayerView::Arp(p),
            Layer::Ipv4(p) => LayerView::Ipv4(p),
            Layer::Ipv6(p) => LayerView::Ipv6(p),
            Layer::Icmp(p) => LayerView::Icmp(p@),
            Layer::Icmpv6(p) => LayerView::Icmpv6(p@),
            Layer::Tcp(p) => LayerView::Tcp(p@),
            Layer::Udp(p) => LayerView::Udp(p),
            Layer::Tls(p) => LayerView::Tls(p),
            Layer::Http(p) => LayerView::Http(p@),
            Layer::Ntp(p) => LayerView::Ntp(p@),
        }
    }
}

/// The mathematical value of a chain: the values of its layers, outermost
/// first.
pub open spec fn chain_view(chain: Seq<Layer>) -> Seq<LayerView> {
    chain.map_values(|l: Layer| l@)
}

/// The mathematical value of the chain that a decoder is handed, where it is
/// handed one.
pub open spec fn ancestors_view(ancestors: Option<&Vec<Layer>>) -> Option<Seq<LayerView>> {
    match ancestors {
        Some(chain) => Some(chain_view(chain@)),
        None => None,
    }
}

impl Layer {
    /// The record, where this layer is an Ethernet header; nothing where it is of
    /// another protocol.
    pub fn as_ethernet(&self) -> (r: Option<&EthernetPacket>)
        ensures
            r is Some <==> *self is Ethernet,
            r matches Some(p) ==> *self == Layer::Ethernet(*p),
    {
        match self {
            Layer::Ethernet(p) => Some(p),
            _ => None,
        }
    }

    /// The record, where this layer is an ARP message; nothing where it is of
    /// another protocol.
    pub fn as_arp(&self) -> (r: Option<&ArpPacket>)
        ensures
            r is Some <==> *self is Arp,
            r matches Some(p) ==> *self == Layer::Arp(*p),
    {
        match self {
            Layer::Arp(p) => Some(p),
            _ => None,
        }
    }

    /// The record, where this layer is an IPv4 header; nothing where it is of
    /// another protocol.
    pub fn as_ipv4(&self) -> (r: Option<&Ipv4Packet>)
        ensures
            r is Some <==> *self is Ipv4,
            r matches Some(p) ==> *self == Layer::Ipv4(*p),
    {
        match self {
            Layer::Ipv4(p) => Some(p),
            _ => None,
        }
    }

    /// The record, where this layer is an IPv6 header; nothing where it is of
    /// another protocol.
    pub fn as_ipv6(&self) -> (r: Option<&Ipv6Packet>)
        ensures
            r is Some <==> *self is Ipv6,
            r matches Some(p) ==> *self == Layer::Ipv6(*p),
    {
        match self {
            Layer::Ipv6(p) => Some(p),
            _ => None,
        }
    }

    /// The record, where this layer is an ICMP message; nothing where it is of
    /// another protocol.
    pub fn as_icmp(&self) -> (r: Option<&IcmpPacket>)
        ensures
            r is Some <==> *self is Icmp,
            r matches Some(p) ==> *self == Layer::Icmp(*p),
    {
        match self {
            Layer::Icmp(p) => Some(p),
            _ => None,
        }
    }

    /// The record, where this layer is an ICMPv6 message; nothing where it is of
    /// another protocol.
    pub fn as_icmpv6(&self) -> (r: Option<&Icmpv6Packet>)
        ensures
            r is Some <==> *self is Icmpv6,
            r matches Some(p) ==> *self == Layer::Icmpv6(*p),
    {
        match self {
            Layer::Icmpv6(p) => Some(p),
            _ => None,
        }
    }

    /// The record, where this layer is a TCP header; nothing where it is of
    /// another protocol.
    pub fn as_tcp(&self) -> (r: Option<&TcpPacket>)
        ensures
            r is Some <==> *self is Tcp,
            r matches Some(p) ==> *self == Layer::Tcp(*p),
    {
        match self {
            Layer::Tcp(p) => Some(p),
            _ => None,
        }
    }

    /// The record, where this layer is a UDP header; nothing where it is of
    /// another protocol.
    pub fn as_udp(&self) -> (r: Option<&UdpPacket>)
        ensures
            r is Some <==> *self is Udp,
            r matches Some(p) ==> *self == Layer::Udp(*p),
    {
        match self {
            Layer::Udp(p) => Some(p),
            _ => None,
        }
    }

    /// The record, where this layer is a TLS record header; nothing where it is of
    /// another protocol.
    pub fn as_tls(&self) -> (r: Option<&TlsPacket>)
        ensures
            r is Some <==> *self is Tls,
            r matches Some(p) ==> *self == Layer::Tls(*p),
    {
        match self {
            Layer::Tls(p) => Some(p),
            _ => None,
        }
    }

    /// The record, where this layer is an HTTP layer; nothing where it is of
    /// another protocol.
    pub fn as_http(&self) -> (r: Option<&HttpPacket>)
        ensures
            r is Some <==> *self is Http,
            r matches Some(p) ==> *self == Layer::Http(*p),
    {
        match self {
            Layer::Http(p) => Some(p),
            _ => None,
        }
    }

    /// The record, where this layer is an NTP message; nothing where it is of
    /// another protocol.
    pub fn as_ntp(&self) -> (r: Option<&NtpPacket>)
        ensures
            r is Some <==> *self is Ntp,
            r matches Some(p) ==> *self == Layer::Ntp(*p),
    {
        match self {
            Layer::Ntp(p) => Some(p),
            _ => None,
        }
    }
}

} // verus!
