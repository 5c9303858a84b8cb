//! Ethernet frame headers.
use vstd::prelude::*;
use crate::bytes::{be16, be_u16};
use crate::layer::{Layer, LayerView};
use crate::outcome::{decoded, rejected_at, short_by, Needed, Outcome, OutcomeView, RejectReason};

verus! {

/// The number of octets of an Ethernet II header.
pub const ETHERNET_HEADER_LEN: usize = 14;

/// The Ethernet decoder.
#[derive(Clone, Copy, Debug)]
pub struct EthernetParser;

/// A 48-bit hardware address, most significant octet first.
#[derive(Clone, Copy, Debug, Default, PartialEq, Eq, Hash)]
pub struct MacAddress(pub u8, pub u8, pub u8, pub u8, pub u8, pub u8);

/// The payload protocols that an Ethernet frame can announce.
#[derive(Clone, Copy, Debug, PartialEq, Eq, Hash, Structural)]
pub enum EtherType {
    /// Internet Protocol version 4
    Ipv4,
    /// Address Resolution Protocol
    Arp,
    /// Wake-on-LAN
    WakeOnLan,
    /// IETF TRILL Protocol
    Trill,
    /// DECnet Phase IV
    DecNet,
    /// Reverse Address Resolution Protocol
    Rarp,
    /// AppleTalk (Ethertalk)
    AppleTalk,
    /// AppleTalk Address Resolution Protocol
    Aarp,
    /// VLAN-tagged frame (IEEE 802.1Q)
    VlanTaggedFrame,
    /// Internetwork Packet Exchange
    Ipx,
    /// QNX Qnet
    Qnx,
    /// Internet Protocol version 6
    Ipv6,
    /// Ethernet flow control
    FlowControl,
    /// MPLS unicast
    MplsUnicast,
    /// MPLS multicast
    MplsMulticast,
    /// PPPoE discovery stage
    PppoeDiscovery,
    /// PPPoE session stage
    PppoeSession,
    /// Link Layer Discovery Protocol
    Lldp,
}

impl EtherType {
    /// The table from the 16-bit type field to the protocols known here.
    pub open spec fn spec_from_u16(input: u16) -> Option<EtherType> {
        if input == 0x0800 {
            Some(EtherType::Ipv4)
        } else if input == 0x0806 {
            Some(EtherType::Arp)
        } else if input == 0x0842 {
            Some(EtherType::WakeOnLan)
        } else if input == 0x22F3 {
            Some(EtherType::Trill)
        } else if input == 0x6003 {
            Some(EtherType::DecNet)
        } else if input == 0x8035 {
            Some(EtherType::Rarp)
        } else if input == 0x809B {
            Some(EtherType::AppleTalk)
        } else if input == 0x80F3 {
            Some(EtherType::Aarp)
        } else if input == 0x8100 {
            Some(EtherType::VlanTaggedFrame)
        } else if input == 0x8137 {
            Some(EtherType::Ipx)
        } else if input == 0x8204 {
            Some(EtherType::Qnx)
        } else if input == 0x86DD {
            Some(EtherType::Ipv6)
        } else if input == 0x8808 {
            Some(EtherType::FlowControl)
        } else if input == 0x8847 {
            Some(EtherType::MplsUnicast)
        } else if input == 0x8848 {
            Some(EtherType::MplsMulticast)
        } else if input == 0x8863 {
            Some(EtherType::PppoeDiscovery)
        } else if input == 0x8864 {
            Some(EtherType::PppoeSession)
        } else if input == 0x88CC {
            Some(EtherType::Lldp)
        } else {
            None
        }
    }

    /// Converts the 16-bit type field of a frame. Values outside the table
    /// give `None`.
    pub fn from_u16(input: u16) -> (r: Option<EtherType>)
        ensures
            r == Self::spec_from_u16(input),
    {
        match input {
            0x0800 => Some(EtherType::Ipv4),
            0x0806 => Some(EtherType::Arp),
            0x0842 => Some(EtherType::WakeOnLan),
            0x22F3 => Some(EtherType::Trill),
            0x6003 => Some(EtherType::DecNet),
            0x8035 => Some(EtherType::Rarp),
            0x809B => Some(EtherType::AppleTalk),
            0x80F3 => Some(EtherType::Aarp),
            0x8100 => Some(EtherType::VlanTaggedFrame),
            0x8137 => Some(EtherType::Ipx),
            0x8204 => Some(EtherType::Qnx),
            0x86DD => Some(EtherType::Ipv6),
            0x8808 => Some(EtherType::FlowControl),
            0x8847 => Some(EtherType::MplsUnicast),
            0x8848 => Some(EtherType::MplsMulticast),
            0x8863 => Some(EtherType::PppoeDiscovery),
            0x8864 => Some(EtherType::PppoeSession),
            0x88CC => Some(EtherType::Lldp),
            _ => None,
        }
    }
}

/// The header of an Ethernet II frame.
#[derive(Clone, Copy, Debug, PartialEq, Eq)]
pub struct EthernetPacket {
    /// Destination hardware address
    pub dst: MacAddress,
    /// Source hardware address
    pub src: MacAddress,
    /// Protocol of the payload
    pub ethertype: EtherType,
}

/// The hardware address whose six octets start at `at`.
pub open spec fn mac_at(b: Seq<u8>, at: int) -> MacAddress
    recommends
        0 <= at,
        at + 6 <= b.len(),
{
    MacAddress(b[at], b[at + 1], b[at + 2], b[at + 3], b[at + 4], b[at + 5])
}

/// The header that the first fourteen octets of `b` encode.
pub open spec fn ethernet_header(b: Seq<u8>) -> EthernetPacket
    recommends
        b.len() >= ETHERNET_HEADER_LEN,
        EtherType::spec_from_u16(be16(b, 12)) is Some,
{
    EthernetPacket {
        dst: mac_at(b, 0),
        src: mac_at(b, 6),
        ethertype: EtherType::spec_from_u16(be16(b, 12)).unwrap(),
    }
}

/// What the Ethernet decoder gives for `b`. Ethernet is the outermost
/// layer, so no ancestor is looked at.
pub open spec fn ethernet_parse(b: Seq<u8>) -> OutcomeView {
    if b.len() < ETHERNET_HEADER_LEN {
        short_by(ETHERNET_HEADER_LEN as nat, b.len())
    } else if EtherType::spec_from_u16(be16(b, 12)) is None {
        rejected_at(RejectReason::UnknownValue, 12)
    } else {
        decoded(ETHERNET_HEADER_LEN as nat, LayerView::Ethernet(ethernet_header(b)))
    }
}

/// Reads the hardware address whose six octets start at `at`.
pub fn read_mac(input: &[u8], at: usize) -> (r: MacAddress)
    requires
        at + 6 <= input@.len(),
    ensures
        r == mac_at(input@, at as int),
{
    let total: usize = input.len();
    assert(at + 6 <= total);
    MacAddress(
        input[at],
        input[at + 1],
        input[at + 2],
        input[at + 3],
        input[at + 4],
        input[at + 5],
    )
}

impl EthernetParser {
    /// Decodes an Ethernet II header from the start of `input`. The
    /// ancestors play no part: Ethernet is where a chain begins.
    pub fn parse(&mut self, input: &[u8], ancestors: Option<&Vec<Layer>>) -> (r: Outcome)
        ensures
            r@ == ethernet_parse(input@),
    {
        let n: usize = input.len();
        if n < ETHERNET_HEADER_LEN {
            return Outcome::Incomplete(Needed::Size(ETHERNET_HEADER_LEN - n));
        }
        let ethertype = match EtherType::from_u16(be_u16(input, 12)) {
            Some(t) => t,
            None => {
                return Outcome::Rejected { reason: RejectReason::UnknownValue, offset: 12 };
            },
        };
        let packet = EthernetPacket { dst: read_mac(input, 0), src: read_mac(input, 6), ethertype };
        Outcome::Decoded { consumed: ETHERNET_HEADER_LEN, layer: Layer::Ethernet(packet) }
    }
}

impl EthernetParser {
    /// The short name of the protocol, for diagnostics.
    pub fn to_string(&self) -> (r: String)
        ensures
            r@ == "Ethernet"@,
    {
        "Ethernet".to_owned()
    }
}

} // verus!
