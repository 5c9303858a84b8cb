//! Address Resolution Protocol messages for IPv4 over Ethernet.
use vstd::prelude::*;
use crate::bytes::{be16, be_u16};
use crate::layer::{ancestors_view, Layer, LayerView};
use crate::layer1::ethernet::{mac_at, read_mac, EtherType, MacAddress};
use crate::layer2::ipv4::Ipv4Addr;
use crate::outcome::{decoded, rejected_at, short_by, Needed, Outcome, OutcomeView, RejectReason};

verus! {

/// The number of octets of an ARP message for IPv4 over Ethernet.
pub const ARP_PACKET_LEN: usize = 28;

/// The ARP decoder.
#[derive(Clone, Copy, Debug)]
pub struct ArpParser;

/// The link layer kinds that an ARP message can name.
#[derive(Clone, Copy, Debug, PartialEq, Eq, Hash, Structural)]
pub enum ArpHardwareType {
    /// Ethernet
    Ethernet,
}

impl ArpHardwareType {
    /// The table from the hardware type field to the kinds known here.
    pub open spec fn spec_from_u16(input: u16) -> Option<ArpHardwareType> {
        if input == 1 {
            Some(ArpHardwareType::Ethernet)
        } else {
            None
        }
    }

    /// Converts the hardware type field. Values outside the table give
    /// `None`.
    pub fn from_u16(input: u16) -> (r: Option<ArpHardwareType>)
        ensures
            r == Self::spec_from_u16(input),
    {
        match input {
            1 => Some(ArpHardwareType::Ethernet),
            _ => None,
        }
    }
}

/// What an ARP message asks for or answers.
#[derive(Clone, Copy, Debug, PartialEq, Eq, Hash, Structural)]
pub enum ArpOperation {
    /// A request for the hardware address of a protocol address
    Request,
    /// The answer to a request
    Reply,
}

impl ArpOperation {
    /// The table from the operation field to the operations known here.
    pub open spec fn spec_from_u16(input: u16) -> Option<ArpOperation> {
        if input == 1 {
            Some(ArpOperation::Request)
        } else if input == 2 {
            Some(ArpOperation::Reply)
        } else {
            None
        }
    }

    /// Converts the operation field. Values outside the table give `None`.
    pub fn from_u16(input: u16) -> (r: Option<ArpOperation>)
        ensures
            r == Self::spec_from_u16(input),
    {
        match input {
            1 => Some(ArpOperation::Request),
            2 => Some(ArpOperation::Reply),
            _ => None,
        }
    }
}

/// An ARP message that maps IPv4 addresses to Ethernet addresses.
#[derive(Clone, Copy, Debug, PartialEq, Eq)]
pub struct ArpPacket {
    /// Link layer kind
    pub hardware_type: ArpHardwareType,
    /// Protocol whose addresses are resolved
    pub protocol_type: EtherType,
    /// Length of a hardware address in octets
    pub hardware_length: u8,
    /// Length of a protocol address in octets
    pub protocol_length: u8,
    /// Request or reply
    pub operation: ArpOperation,
    /// Hardware address of the sender
    pub sender_hardware_address: MacAddress,
    /// Protocol address of the sender
    pub sender_protocol_address: Ipv4Addr,
    /// Hardware address of the target
    pub target_hardware_address: MacAddress,
    /// Protocol address of the target
    pub target_protocol_address: Ipv4Addr,
}

/// Whether an ARP message may follow the given ancestors: no chain at all,
/// or a chain that ends in an Ethernet header announcing ARP.
pub open spec fn arp_accepts(ancestors: Option<Seq<LayerView>>) -> bool {
    match ancestors {
        None => true,
        Some(chain) => chain.len() > 0 && match chain.last() {
            LayerView::Ethernet(eth) => eth.ethertype == EtherType::Arp,
            _ => false,
        },
    }
}

/// The IPv4 address whose four octets start at `at`.
pub open spec fn ipv4_addr_at(b: Seq<u8>, at: int) -> Ipv4Addr
    recommends
        0 <= at,
        at + 4 <= b.len(),
{
    Ipv4Addr(b[at], b[at + 1], b[at + 2], b[at + 3])
}

/// The message that the first twenty-eight octets of `b` encode.
pub open spec fn arp_packet(b: Seq<u8>) -> ArpPacket
    recommends
        b.len() >= ARP_PACKET_LEN,
        ArpHardwareType::spec_from_u16(be16(b, 0)) is Some,
        EtherType::spec_from_u16(be16(b, 2)) is Some,
        ArpOperation::spec_from_u16(be16(b, 6)) is Some,
{
    ArpPacket {
        hardware_type: ArpHardwareType::spec_from_u16(be16(b, 0)).unwrap(),
        protocol_type: EtherType::spec_from_u16(be16(b, 2)).unwrap(),
        hardware_length: b[4],
        protocol_length: b[5],
        operation: ArpOperation::spec_from_u16(be16(b, 6)).unwrap(),
        sender_hardware_address: mac_at(b, 8),
        sender_protocol_address: ipv4_addr_at(b, 14),
        target_hardware_address: mac_at(b, 18),
        target_protocol_address: ipv4_addr_at(b, 24),
    }
}

/// What decoding `b` as an ARP message gives, ancestors aside. The fields
/// are taken in the order of transmission, and the first one that is wrong
/// or cut short decides.
pub open spec fn arp_decode(b: Seq<u8>) -> OutcomeView {
    if b.len() < 2 {
        short_by(ARP_PACKET_LEN as nat, b.len())
    } else if ArpHardwareType::spec_from_u16(be16(b, 0)) is None {
        rejected_at(RejectReason::UnknownValue, 0)
    } else if b.len() < 4 {
        short_by(ARP_PACKET_LEN as nat, b.len())
    } else if EtherType::spec_from_u16(be16(b, 2)) is None {
        rejected_at(RejectReason::UnknownValue, 2)
    } else if b.len() < 8 {
        short_by(ARP_PACKET_LEN as nat, b.len())
    } else if ArpOperation::spec_from_u16(be16(b, 6)) is None {
        rejected_at(RejectReason::UnknownValue, 6)
    } else if b.len() < ARP_PACKET_LEN {
        short_by(ARP_PACKET_LEN as nat, b.len())
    } else {
        decoded(ARP_PACKET_LEN as nat, LayerView::Arp(arp_packet(b)))
    }
}

/// What the ARP decoder gives for `b` after the given ancestors.
pub open spec fn arp_parse(b: Seq<u8>, ancestors: Option<Seq<LayerView>>) -> OutcomeView {
    if arp_accepts(ancestors) {
        arp_decode(b)
    } else {
        rejected_at(RejectReason::Ancestor, 0)
    }
}

/// Reads the IPv4 address whose four octets start at `at`.
fn read_ipv4_addr(input: &[u8], at: usize) -> (r: Ipv4Addr)
    requires
        at + 4 <= input@.len(),
    ensures
        r == ipv4_addr_at(input@, at as int),
{
    let total: usize = input.len();
    assert(at + 4 <= total);
    Ipv4Addr(input[at], input[at + 1], input[at + 2], input[at + 3])
}

impl ArpParser {
    /// Tests the end of the ancestor chain: an ARP message follows an
    /// Ethernet header whose type field says ARP. Without a chain every
    /// input is tried.
    pub fn accepts(ancestors: Option<&Vec<Layer>>) -> (r: bool)
        ensures
            r == arp_accepts(ancestors_view(ancestors)),
    {
        match ancestors {
            None => true,
            Some(chain) => {
                let n: usize = chain.len();
                if n == 0 {
                    false
                } else {
                    match &chain[n - 1] {
                        Layer::Ethernet(eth) => eth.ethertype == EtherType::Arp,
                        _ => false,
                    }
                }
            },
        }
    }

    /// Decodes an ARP message from the start of `input`, after checking
    /// that the ancestors allow one.
    pub fn parse(&mut self, input: &[u8], ancestors: Option<&Vec<Layer>>) -> (r: Outcome)
        ensures
            r@ == arp_parse(input@, ancestors_view(ancestors)),
    {
        if !Self::accepts(ancestors) {
            return Outcome::Rejected { reason: RejectReason::Ancestor, offset: 0 };
        }
        let n: usize = input.len();
        if n < 2 {
            return Outcome::Incomplete(Needed::Size(ARP_PACKET_LEN - n));
        }
        let hardware_type = match ArpHardwareType::from_u16(be_u16(input, 0)) {
            Some(t) => t,
            None => {
                return Outcome::Rejected { reason: RejectReason::UnknownValue, offset: 0 };
            },
        };
        if n < 4 {
            return Outcome::Incomplete(Needed::Size(ARP_PACKET_LEN - n));
        }
        let protocol_type = match EtherType::from_u16(be_u16(input, 2)) {
            Some(t) => t,
            None => {
                return Outcome::Rejected { reason: RejectReason::UnknownValue, offset: 2 };
            },
        };
        if n < 8 {
            return Outcome::Incomplete(Needed::Size(ARP_PACKET_LEN - n));
        }
        let operation = match ArpOperation::from_u16(be_u16(input, 6)) {
            Some(t) => t,
            None => {
                return Outcome::Rejected { reason: RejectReason::UnknownValue, offset: 6 };
            },
        };
        if n < ARP_PACKET_LEN {
            return Outcome::Incomplete(Needed::Size(ARP_PACKET_LEN - n));
        }
        let packet = ArpPacket {
            hardware_type,
            protocol_type,
            hardware_length: input[4],
            protocol_length: input[5],
            operation,
            sender_hardware_address: read_mac(input, 8),
            sender_protocol_address: read_ipv4_addr(input, 14),
            target_hardware_address: read_mac(input, 18),
            target_protocol_address: read_ipv4_addr(input, 24),
        };
        Outcome::Decoded { consumed: ARP_PACKET_LEN, layer: Layer::Arp(packet) }
    }
}

impl ArpParser {
    /// The short name of the protocol, for diagnostics.
    pub fn to_string(&self) -> (r: String)
        ensures
            r@ == "ARP"@,
    {
        "ARP".to_owned()
    }
}

} // verus!
