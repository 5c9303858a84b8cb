//! The key under which a flow tracker files a decoded chain: the two
//! endpoints of its transport layer.
use vstd::prelude::*;
use crate::layer::{chain_view, Layer, LayerView};
use crate::layer2::ipv4::{IpProtocol, Ipv4Addr};
use crate::layer2::ipv6::Ipv6Addr;

verus! {

/// An address of either version of the Internet Protocol.
#[derive(Clone, Copy, Debug, PartialEq, Eq, Hash)]
pub enum IpAddress {
    /// An IPv4 address
    V4(Ipv4Addr),
    /// An IPv6 address
    V6(Ipv6Addr),
}

/// The endpoints of one transport layer record, as they were sent.
#[derive(Clone, Copy, Debug, PartialEq, Eq, Hash)]
pub struct Flow {
    /// Address of the sender
    pub source: IpAddress,
    /// Port of the sender
    pub source_port: u16,
    /// Address of the receiver
    pub destination: IpAddress,
    /// Port of the receiver
    pub destination_port: u16,
    /// The transport protocol
    pub protocol: IpProtocol,
}

/// The addresses of an entry that is an IPv4 or IPv6 header.
pub open spec fn addresses_of(layer: LayerView) -> Option<(IpAddress, IpAddress)> {
    match layer {
        LayerView::Ipv4(ip) => Some((IpAddress::V4(ip.src), IpAddress::V4(ip.dst))),
        LayerView::Ipv6(ip) => Some((IpAddress::V6(ip.src), IpAddress::V6(ip.dst))),
        _ => None,
    }
}

/// The ports and the protocol of an entry that is a TCP or UDP header.
pub open spec fn ports_of(layer: LayerView) -> Option<(u16, u16, IpProtocol)> {
    match layer {
        LayerView::Tcp(tcp) => Some(
            (tcp.header.source_port, tcp.header.dest_port, IpProtocol::Tcp),
        ),
        LayerView::Udp(udp) => Some(
            (udp.header.source_port, udp.header.dest_port, IpProtocol::Udp),
        ),
        _ => None,
    }
}

/// The flow that the entries at `network` and `transport` of `chain` show:
/// there is one where both positions lie in the chain, the first holds an
/// IPv4 or IPv6 header and the second a TCP or UDP header. What the entries
/// hold decides, not where they stand.
pub open spec fn flow_at(chain: Seq<LayerView>, network: int, transport: int) -> Option<Flow> {
    if 0 <= network < chain.len() && 0 <= transport < chain.len() {
        match (addresses_of(chain[network]), ports_of(chain[transport])) {
            (Some(addresses), Some(ports)) => Some(
                Flow {
                    source: addresses.0,
                    source_port: ports.0,
                    destination: addresses.1,
                    destination_port: ports.1,
                    protocol: ports.2,
                },
            ),
            _ => None,
        }
    } else {
        None
    }
}

/// Reads from a finished chain the flow that a tracker files it under.
/// `network` and `transport` are the positions of the entries to read;
/// nothing is returned where the chain holds no network or no transport
/// layer there.
pub fn flow_of(chain: &Vec<Layer>, network: usize, transport: usize) -> (r: Option<Flow>)
    ensures
        r == flow_at(chain_view(chain@), network as int, transport as int),
{
    let n: usize = chain.len();
    if network >= n || transport >= n {
        return None;
    }
    let (source, destination) = match &chain[network] {
        Layer::Ipv4(ip) => (IpAddress::V4(ip.src), IpAddress::V4(ip.dst)),
        Layer::Ipv6(ip) => (IpAddress::V6(ip.src), IpAddress::V6(ip.dst)),
        _ => {
            return None;
        },
    };
    let (source_port, destination_port, protocol) = match &chain[transport] {
        Layer::Tcp(tcp) => (tcp.header.source_port, tcp.header.dest_port, IpProtocol::Tcp),
        Layer::Udp(udp) => (udp.header.source_port, udp.header.dest_port, IpProtocol::Udp),
        _ => {
            return None;
        },
    };
    Some(Flow { source, source_port, destination, destination_port, protocol })
}

} // verus!
