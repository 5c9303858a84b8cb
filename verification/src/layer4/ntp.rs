//! Network Time Protocol messages.
use vstd::prelude::*;
use crate::bytes::{be32, be64, be_u32, be_u64, bit_field, bits_of, copy_range};
use crate::layer::{ancestors_view, Layer, LayerView};
use crate::outcome::{decoded, rejected_at, short_by, Needed, Outcome, OutcomeView, RejectReason};

verus! {

/// The number of octets of an NTP message without authenticator.
pub const NTP_HEADER_LEN: usize = 48;

/// The number of octets of an authenticator: a 32-bit key identifier and a
/// 128-bit message digest.
pub const NTP_AUTH_LEN: usize = 20;

/// The NTP decoder.
#[derive(Clone, Copy, Debug)]
pub struct NtpParser;

/// An NTP message.
#[derive(Clone, Debug, PartialEq, Eq)]
pub struct NtpPacket {
    /// Leap indicator, two bits
    pub li: u8,
    /// Protocol version, three bits
    pub version: u8,
    /// Association mode, three bits
    pub mode: u8,
    /// Stratum of the clock
    pub stratum: u8,
    /// Poll interval exponent
    pub poll: u8,
    /// Precision exponent
    pub precision: u8,
    /// Round trip delay to the reference clock
    pub root_delay: u32,
    /// Dispersion to the reference clock
    pub root_dispersion: u32,
    /// Identifier of the reference
    pub ref_id: u32,
    /// Time the clock was last set
    pub ts_ref: u64,
    /// Time the request left the client
    pub ts_orig: u64,
    /// Time the request reached the server
    pub ts_recv: u64,
    /// Time the reply left the server
    pub ts_xmit: u64,
    /// Key identifier and message digest, where present
    pub auth: Option<(u32, Vec<u8>)>,
}

/// The mathematical value of an [`NtpPacket`].
pub struct NtpPacketView {
    pub li: u8,
    pub version: u8,
    pub mode: u8,
    pub stratum: u8,
    pub poll: u8,
    pub precision: u8,
    pub root_delay: u32,
    pub root_dispersion: u32,
    pub ref_id: u32,
    pub ts_ref: u64,
    pub ts_orig: u64,
    pub ts_recv: u64,
    pub ts_xmit: u64,
    pub auth: Option<(u32, Seq<u8>)>,
}

impl View for NtpPacket {
    type V = NtpPacketView;

    open spec fn view(&self) -> NtpPacketView {
        NtpPacketView {
            li: self.li,
            version: self.version,
            mode: self.mode,
            stratum: self.stratum,
            poll: self.poll,
            precision: self.precision,
            root_delay: self.root_delay,
            root_dispersion: self.root_dispersion,
            ref_id: self.ref_id,
            ts_ref: self.ts_ref,
            ts_orig: self.ts_orig,
            ts_recv: self.ts_recv,
            ts_xmit: self.ts_xmit,
            auth: match self.auth {
                Some((key, digest)) => Some((key, digest@)),
                None => None,
            },
        }
    }
}

/// Whether an NTP message may follow the given ancestors: no chain at all,
/// or a chain that ends in a UDP header, whatever its ports.
pub open spec fn ntp_accepts(ancestors: Option<Seq<LayerView>>) -> bool {
    match ancestors {
        None => true,
        Some(chain) => chain.len() > 0 && chain.last() is Udp,
    }
}

/// Whether a whole authenticator follows the message in `b`.
pub open spec fn ntp_has_auth(b: Seq<u8>) -> bool {
    b.len() >= NTP_HEADER_LEN + NTP_AUTH_LEN
}

/// The message that the start of `b` encodes. The authenticator is present
/// where all twenty of its octets are.
pub open spec fn ntp_packet(b: Seq<u8>) -> NtpPacketView
    recommends
        b.len() >= NTP_HEADER_LEN,
{
    NtpPacketView {
        li: bit_field(b[0], 6, 2),
        version: bit_field(b[0], 3, 3),
        mode: bit_field(b[0], 0, 3),
        stratum: b[1],
        poll: b[2],
        precision: b[3],
        root_delay: be32(b, 4),
        root_dispersion: be32(b, 8),
        ref_id: be32(b, 12),
        ts_ref: be64(b, 16),
        ts_orig: be64(b, 24),
        ts_recv: be64(b, 32),
        ts_xmit: be64(b, 40),
        auth: if ntp_has_auth(b) {
            Some((be32(b, 48), b.subrange(52, 68)))
        } else {
            None
        },
    }
}

/// What decoding `b` as an NTP message gives, ancestors aside.
pub open spec fn ntp_decode(b: Seq<u8>) -> OutcomeView {
    if b.len() < NTP_HEADER_LEN {
        short_by(NTP_HEADER_LEN as nat, b.len())
    } else if ntp_has_auth(b) {
        decoded((NTP_HEADER_LEN + NTP_AUTH_LEN) as nat, LayerView::Ntp(ntp_packet(b)))
    } else {
        decoded(NTP_HEADER_LEN as nat, LayerView::Ntp(ntp_packet(b)))
    }
}

/// What the NTP decoder gives for `b` after the given ancestors.
pub open spec fn ntp_parse(b: Seq<u8>, ancestors: Option<Seq<LayerView>>) -> OutcomeView {
    if ntp_accepts(ancestors) {
        ntp_decode(b)
    } else {
        rejected_at(RejectReason::Ancestor, 0)
    }
}

impl NtpParser {
    /// Tests the end of the ancestor chain: an NTP message follows a UDP
    /// header. Without a chain every input is tried.
    pub fn accepts(ancestors: Option<&Vec<Layer>>) -> (r: bool)
        ensures
            r == ntp_accepts(ancestors_view(ancestors)),
    {
        match ancestors {
            None => true,
            Some(chain) => {
                let n: usize = chain.len();
                if n == 0 {
                    false
                } else {
                    match &chain[n - 1] {
                        Layer::Udp(_) => true,
                        _ => false,
                    }
                }
            },
        }
    }

    /// Decodes an NTP message from the start of `input`, after checking
    /// that the ancestors allow one.
    pub fn parse(&mut self, input: &[u8], ancestors: Option<&Vec<Layer>>) -> (r: Outcome)
        ensures
            r@ == ntp_parse(input@, ancestors_view(ancestors)),
    {
        if !Self::accepts(ancestors) {
            return Outcome::Rejected { reason: RejectReason::Ancestor, offset: 0 };
        }
        let n: usize = input.len();
        if n < NTP_HEADER_LEN {
            return Outcome::Incomplete(Needed::Size(NTP_HEADER_LEN - n));
        }
        let with_auth: bool = n >= NTP_HEADER_LEN + NTP_AUTH_LEN;
        let auth: Option<(u32, Vec<u8>)> = if with_auth {
            Some((be_u32(input, 48), copy_range(input, 52, 68)))
        } else {
            None
        };
        let packet = NtpPacket {
            li: bits_of(input[0], 6, 2),
            version: bits_of(input[0], 3, 3),
            mode: bits_of(input[0], 0, 3),
            stratum: input[1],
            poll: input[2],
            precision: input[3],
            root_delay: be_u32(input, 4),
            root_dispersion: be_u32(input, 8),
            ref_id: be_u32(input, 12),
            ts_ref: be_u64(input, 16),
            ts_orig: be_u64(input, 24),
            ts_recv: be_u64(input, 32),
            ts_xmit: be_u64(input, 40),
            auth,
        };
        let consumed: usize = if with_auth {
            NTP_HEADER_LEN + NTP_AUTH_LEN
        } else {
            NTP_HEADER_LEN
        };
        Outcome::Decoded { consumed, layer: Layer::Ntp(packet) }
    }
}

impl NtpParser {
    /// The short name of the protocol, for diagnostics.
    pub fn to_string(&self) -> (r: String)
        ensures
            r@ == "NTP"@,
    {
        "NTP".to_owned()
    }
}

} // verus!
