//! Transmission Control Protocol segment headers.
use vstd::prelude::*;
use crate::bytes::{be16, be32, be_u16, be_u32, bit_field, bit_set, bits_of, copy_range,
    high_nibble, low_nibble, lower_nibble, upper_nibble, words_to_octets};
use crate::layer::{ancestors_view, Layer, LayerView};
use crate::layer2::ipv4::IpProtocol;
use crate::outcome::{decoded, rejected_at, short_by, Needed, Outcome, OutcomeView, RejectReason};

verus! {

/// The number of octets of a TCP header without options.
pub const TCP_HEADER_LEN: usize = 20;

/// The TCP decoder.
#[derive(Clone, Copy, Debug)]
pub struct TcpParser;

/// The header of a TCP segment.
#[derive(Clone, Debug, PartialEq, Eq)]
pub struct TcpHeader {
    /// Source port
    pub source_port: u16,
    /// Destination port
    pub dest_port: u16,
    /// Sequence number
    pub sequence_no: u32,
    /// Acknowledgment number
    pub ack_no: u32,
    /// Length of the header in octets, options included
    pub data_offset: u8,
    /// Reserved bits, six of them
    pub reserved: u8,
    /// Urgent pointer field is significant
    pub flag_urg: bool,
    /// Acknowledgment field is significant
    pub flag_ack: bool,
    /// Push function
    pub flag_psh: bool,
    /// Reset the connection
    pub flag_rst: bool,
    /// Synchronize sequence numbers
    pub flag_syn: bool,
    /// No more data from the sender
    pub flag_fin: bool,
    /// Receive window
    pub window: u16,
    /// Checksum
    pub checksum: u16,
    /// Urgent pointer
    pub urgent_pointer: u16,
    /// The options, undecoded
    pub options: Vec<u8>,
}

/// The mathematical value of a [`TcpHeader`].
pub struct TcpHeaderView {
    pub source_port: u16,
    pub dest_port: u16,
    pub sequence_no: u32,
    pub ack_no: u32,
    pub data_offset: u8,
    pub reserved: u8,
    pub flag_urg: bool,
    pub flag_ack: bool,
    pub flag_psh: bool,
    pub flag_rst: bool,
    pub flag_syn: bool,
    pub flag_fin: bool,
    pub window: u16,
    pub checksum: u16,
    pub urgent_pointer: u16,
    pub options: Seq<u8>,
}

impl View for TcpHeader {
    type V = TcpHeaderView;

    open spec fn view(&self) -> TcpHeaderView {
        TcpHeaderView {
            source_port: self.source_port,
            dest_port: self.dest_port,
            sequence_no: self.sequence_no,
            ack_no: self.ack_no,
            data_offset: self.data_offset,
            reserved: self.reserved,
            flag_urg: self.flag_urg,
            flag_ack: self.flag_ack,
            flag_psh: self.flag_psh,
            flag_rst: self.flag_rst,
            flag_syn: self.flag_syn,
            flag_fin: self.flag_fin,
            window: self.window,
            checksum: self.checksum,
            urgent_pointer: self.urgent_pointer,
            options: self.options@,
        }
    }
}

/// A decoded TCP segment.
#[derive(Clone, Debug, PartialEq, Eq)]
pub struct TcpPacket {
    /// The segment header
    pub header: TcpHeader,
}

/// The mathematical value of a [`TcpPacket`].
pub struct TcpPacketView {
    pub header: TcpHeaderView,
}

impl View for TcpPacket {
    type V = TcpPacketView;

    open spec fn view(&self) -> TcpPacketView {
        TcpPacketView { header: self.header@ }
    }
}

/// Whether a TCP header may follow the given ancestors: no chain at all, or
/// a chain that ends in an IPv4 or IPv6 header announcing TCP.
pub open spec fn tcp_accepts(ancestors: Option<Seq<LayerView>>) -> bool {
    match ancestors {
        None => true,
        Some(chain) => chain.len() > 0 && match chain.last() {
            LayerView::Ipv4(ip) => ip.protocol == IpProtocol::Tcp,
            LayerView::Ipv6(ip) => ip.next_header == IpProtocol::Tcp,
            _ => false,
        },
    }
}

/// The length in octets that the data offset field of `b` gives the header.
pub open spec fn tcp_header_len(b: Seq<u8>) -> u8
    recommends
        b.len() > 12,
{
    words_to_octets(high_nibble(b[12]))
}

/// The header that the start of `b` encodes, options included.
pub open spec fn tcp_header(b: Seq<u8>) -> TcpHeaderView
    recommends
        tcp_header_len(b) >= TCP_HEADER_LEN,
        b.len() >= tcp_header_len(b),
{
    TcpHeaderView {
        source_port: be16(b, 0),
        dest_port: be16(b, 2),
        sequence_no: be32(b, 4),
        ack_no: be32(b, 8),
        data_offset: tcp_header_len(b),
        reserved: (low_nibble(b[12]) as int * 4 + bit_field(b[13], 6, 2) as int) as u8,
        flag_urg: bit_set(b[13], 5),
        flag_ack: bit_set(b[13], 4),
        flag_psh: bit_set(b[13], 3),
        flag_rst: bit_set(b[13], 2),
        flag_syn: bit_set(b[13], 1),
        flag_fin: bit_set(b[13], 0),
        window: be16(b, 14),
        checksum: be16(b, 16),
        urgent_pointer: be16(b, 18),
        options: b.subrange(TCP_HEADER_LEN as int, tcp_header_len(b) as int),
    }
}

/// What decoding `b` as a TCP header gives, ancestors aside. A data offset
/// of fewer than five words cannot hold the fixed header and is turned
/// down; the options run up to the data offset.
pub open spec fn tcp_decode(b: Seq<u8>) -> OutcomeView {
    if b.len() < TCP_HEADER_LEN {
        short_by(TCP_HEADER_LEN as nat, b.len())
    } else if tcp_header_len(b) < TCP_HEADER_LEN {
        rejected_at(RejectReason::Length, 12)
    } else if b.len() < tcp_header_len(b) {
        short_by(tcp_header_len(b) as nat, b.len())
    } else {
        decoded(tcp_header_len(b) as nat, LayerView::Tcp(TcpPacketView { header: tcp_header(b) }))
    }
}

/// What the TCP decoder gives for `b` after the given ancestors.
pub open spec fn tcp_parse(b: Seq<u8>, ancestors: Option<Seq<LayerView>>) -> OutcomeView {
    if tcp_accepts(ancestors) {
        tcp_decode(b)
    } else {
        rejected_at(RejectReason::Ancestor, 0)
    }
}

impl TcpParser {
    /// Tests the end of the ancestor chain: a TCP header follows an IPv4 or
    /// IPv6 header that names TCP as its payload. Without a chain every
    /// input is tried.
    pub fn accepts(ancestors: Option<&Vec<Layer>>) -> (r: bool)
        ensures
            r == tcp_accepts(ancestors_view(ancestors)),
    {
        match ancestors {
            None => true,
            Some(chain) => {
                let n: usize = chain.len();
                if n == 0 {
                    false
                } else {
                    match &chain[n - 1] {
                        Layer::Ipv4(ip) => ip.protocol == IpProtocol::Tcp,
                        Layer::Ipv6(ip) => ip.next_header == IpProtocol::Tcp,
                        _ => false,
                    }
                }
            },
        }
    }

    /// Decodes a TCP header and its options from the start of `input`,
    /// after checking that the ancestors allow one.
    pub fn parse(&mut self, input: &[u8], ancestors: Option<&Vec<Layer>>) -> (r: Outcome)
        ensures
            r@ == tcp_parse(input@, ancestors_view(ancestors)),
    {
        if !Self::accepts(ancestors) {
            return Outcome::Rejected { reason: RejectReason::Ancestor, offset: 0 };
        }
        let n: usize = input.len();
        if n < TCP_HEADER_LEN {
            return Outcome::Incomplete(Needed::Size(TCP_HEADER_LEN - n));
        }
        let data_offset: u8 = upper_nibble(input[12]) * 4;
        let header_len: usize = data_offset as usize;
        if header_len < TCP_HEADER_LEN {
            return Outcome::Rejected { reason: RejectReason::Length, offset: 12 };
        }
        if n < header_len {
            return Outcome::Incomplete(Needed::Size(header_len - n));
        }
        let header = TcpHeader {
            source_port: be_u16(input, 0),
            dest_port: be_u16(input, 2),
            sequence_no: be_u32(input, 4),
            ack_no: be_u32(input, 8),
            data_offset,
            reserved: lower_nibble(input[12]) * 4 + bits_of(input[13], 6, 2),
            flag_urg: bits_of(input[13], 5, 1) == 1,
            flag_ack: bits_of(input[13], 4, 1) == 1,
            flag_psh: bits_of(input[13], 3, 1) == 1,
            flag_rst: bits_of(input[13], 2, 1) == 1,
            flag_syn: bits_of(input[13], 1, 1) == 1,
            flag_fin: bits_of(input[13], 0, 1) == 1,
            window: be_u16(input, 14),
            checksum: be_u16(input, 16),
            urgent_pointer: be_u16(input, 18),
            options: copy_range(input, TCP_HEADER_LEN, header_len),
        };
        Outcome::Decoded { consumed: header_len, layer: Layer::Tcp(TcpPacket { header }) }
    }
}

/// An input of fewer than twenty octets, after ancestors that allow TCP,
/// is incomplete by exactly the octets that are missing from the fixed
/// header.
pub proof fn lemma_tcp_short(b: Seq<u8>, ancestors: Option<Seq<LayerView>>)
    requires
        tcp_accepts(ancestors),
        b.len() < TCP_HEADER_LEN,
    ensures
        tcp_parse(b, ancestors) == OutcomeView::Incomplete(
            Needed::Size((TCP_HEADER_LEN - b.len()) as usize),
        ),
{
}

impl TcpParser {
    /// The short name of the protocol, for diagnostics.
    pub fn to_string(&self) -> (r: String)
        ensures
            r@ == "TCP"@,
    {
        "TCP".to_owned()
    }
}

} // verus!
