//! The items that a user of the decoders needs, under one path.
pub use crate::flow::{flow_of, Flow, IpAddress};
pub use crate::layer::Layer;
pub use crate::layer1::arp::{ArpHardwareType, ArpOperation, ArpPacket, ArpParser};
pub use crate::layer1::ethernet::{EtherType, EthernetPacket, EthernetParser, MacAddress};
pub use crate::layer2::icmp::{IcmpData, IcmpEcho, IcmpPacket, IcmpParser, IcmpType};
pub use crate::layer2::icmpv6::{Icmpv6Packet, Icmpv6Parser, Icmpv6Type};
pub use crate::layer2::ipv4::{IpProtocol, Ipv4Addr, Ipv4Packet, Ipv4Parser};
pub use crate::layer2::ipv6::{Ipv6Addr, Ipv6Packet, Ipv6Parser};
pub use crate::layer3::tcp::{TcpHeader, TcpPacket, TcpParser};
pub use crate::layer3::tls::{TlsPacket, TlsParser, TlsRecordContentType, TlsRecordVersion};
pub use crate::layer3::udp::{UdpHeader, UdpPacket, UdpParser};
pub use crate::layer4::http::{HttpHeader, HttpPacket, HttpParser, HttpRequest, HttpRequestMethod,
    HttpResponse, HttpVersion};
pub use crate::layer4::ntp::{NtpPacket, NtpParser};
pub use crate::layer4::text::Step;
pub use crate::outcome::{Needed, Outcome, RejectReason};
pub use crate::tree::{NewPeelIp, Parser, PeelIp, PeelResult};
