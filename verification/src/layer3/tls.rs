//! Transport Layer Security record headers.
use vstd::prelude::*;
use crate::bytes::{be16, be_u16};
use crate::layer::{ancestors_view, Layer, LayerView};
use crate::outcome::{decoded, rejected_at, short_by, Needed, Outcome, OutcomeView, RejectReason};

verus! {

/// The number of octets of a TLS record header.
pub const TLS_HEADER_LEN: usize = 5;

/// The TLS decoder.
#[derive(Clone, Copy, Debug)]
pub struct TlsParser;

/// The header of a TLS record.
#[derive(Clone, Copy, Debug, PartialEq, Eq)]
pub struct TlsPacket {
    /// Content type of the record
    pub content_type: TlsRecordContentType,
    /// Protocol version of the record
    pub version: TlsRecordVersion,
    /// Length of the record body in octets
    pub length: u16,
}

/// The content types of the TLS record protocol.
#[derive(Clone, Copy, Debug, PartialEq, Eq, Hash, Structural)]
pub enum TlsRecordContentType {
    /// Change Cipher Spec
    ChangeCipherSpec,
    /// Alert
    Alert,
    /// Handshake
    Handshake,
    /// Application Data
    ApplicationData,
    /// Heartbeat
    Heartbeat,
}

impl TlsRecordContentType {
    /// The assigned content type number.
    pub open spec fn number(self) -> u8 {
        match self {
            TlsRecordContentType::ChangeCipherSpec => 20,
            TlsRecordContentType::Alert => 21,
            TlsRecordContentType::Handshake => 22,
            TlsRecordContentType::ApplicationData => 23,
            TlsRecordContentType::Heartbeat => 24,
        }
    }

    /// The table from content type numbers to the content types known here.
    pub open spec fn spec_from_u8(input: u8) -> Option<TlsRecordContentType> {
        if input == 20 {
            Some(TlsRecordContentType::ChangeCipherSpec)
        } else if input == 21 {
            Some(TlsRecordContentType::Alert)
        } else if input == 22 {
            Some(TlsRecordContentType::Handshake)
        } else if input == 23 {
            Some(TlsRecordContentType::ApplicationData)
        } else if input == 24 {
            Some(TlsRecordContentType::Heartbeat)
        } else {
            None
        }
    }

    /// Converts a content type number. Returns `None` for a number that
    /// stands for no content type known here.
    pub fn from_u8(input: u8) -> (r: Option<TlsRecordContentType>)
        ensures
            r == Self::spec_from_u8(input),
            r matches Some(t) ==> t.number() == input,
            r is None ==> forall|t: TlsRecordContentType| t.number() != input,
    {
        match input {
            20 => Some(TlsRecordContentType::ChangeCipherSpec),
            21 => Some(TlsRecordContentType::Alert),
            22 => Some(TlsRecordContentType::Handshake),
            23 => Some(TlsRecordContentType::ApplicationData),
            24 => Some(TlsRecordContentType::Heartbeat),
            _ => None,
        }
    }
}

/// The protocol version of a TLS record, as transmitted.
#[derive(Clone, Copy, Debug, PartialEq, Eq)]
pub struct TlsRecordVersion {
    /// Major part of the version
    pub major: u8,
    /// Minor part of the version
    pub minor: u8,
}

/// Whether a TLS record may follow the given ancestors: no chain at all, or
/// a chain that ends in a TCP header, whatever its ports.
pub open spec fn tls_accepts(ancestors: Option<Seq<LayerView>>) -> bool {
    match ancestors {
        None => true,
        Some(chain) => chain.len() > 0 && chain.last() is Tcp,
    }
}

/// The record header that the first five octets of `b` encode.
pub open spec fn tls_header(b: Seq<u8>) -> TlsPacket
    recommends
        b.len() >= TLS_HEADER_LEN,
        TlsRecordContentType::spec_from_u8(b[0]) is Some,
{
    TlsPacket {
        content_type: TlsRecordContentType::spec_from_u8(b[0]).unwrap(),
        version: TlsRecordVersion { major: b[1], minor: b[2] },
        length: be16(b, 3),
    }
}

/// What decoding `b` as a TLS record header gives, ancestors aside. Only
/// the header is consumed, never the record body.
pub open spec fn tls_decode(b: Seq<u8>) -> OutcomeView {
    if b.len() == 0 {
        short_by(TLS_HEADER_LEN as nat, 0)
    } else if TlsRecordContentType::spec_from_u8(b[0]) is None {
        rejected_at(RejectReason::UnknownValue, 0)
    } else if b.len() < TLS_HEADER_LEN {
        short_by(TLS_HEADER_LEN as nat, b.len())
    } else {
        decoded(TLS_HEADER_LEN as nat, LayerView::Tls(tls_header(b)))
    }
}

/// What the TLS decoder gives for `b` after the given ancestors.
pub open spec fn tls_parse(b: Seq<u8>, ancestors: Option<Seq<LayerView>>) -> OutcomeView {
    if tls_accepts(ancestors) {
        tls_decode(b)
    } else {
        rejected_at(RejectReason::Ancestor, 0)
    }
}

impl TlsParser {
    /// Tests the end of the ancestor chain: a TLS record follows a TCP
    /// header. Without a chain every input is tried.
    pub fn accepts(ancestors: Option<&Vec<Layer>>) -> (r: bool)
        ensures
            r == tls_accepts(ancestors_view(ancestors)),
    {
        match ancestors {
            None => true,
            Some(chain) => {
                let n: usize = chain.len();
                if n == 0 {
                    false
                } else {
                    match &chain[n - 1] {
                        Layer::Tcp(_) => true,
                        _ => false,
                    }
                }
            },
        }
    }

    /// Decodes a TLS record header from the start of `input`, after
    /// checking that the ancestors allow one.
    pub fn parse(&mut self, input: &[u8], ancestors: Option<&Vec<Layer>>) -> (r: Outcome)
        ensures
            r@ == tls_parse(input@, ancestors_view(ancestors)),
    {
        if !Self::accepts(ancestors) {
            return Outcome::Rejected { reason: RejectReason::Ancestor, offset: 0 };
        }
        let n: usize = input.len();
        if n == 0 {
            return Outcome::Incomplete(Needed::Size(TLS_HEADER_LEN));
        }
        let content_type = match TlsRecordContentType::from_u8(input[0]) {
            Some(t) => t,
            None => {
                return Outcome::Rejected { reason: RejectReason::UnknownValue, offset: 0 };
            },
        };
        if n < TLS_HEADER_LEN {
            return Outcome::Incomplete(Needed::Size(TLS_HEADER_LEN - n));
        }
        let packet = TlsPacket {
            content_type,
            version: TlsRecordVersion { major: input[1], minor: input[2] },
            length: be_u16(input, 3),
        };
        Outcome::Decoded { consumed: TLS_HEADER_LEN, layer: Layer::Tls(packet) }
    }
}

impl TlsParser {
    /// The short name of the protocol, for diagnostics.
    pub fn to_string(&self) -> (r: String)
        ensures
            r@ == "TLS"@,
    {
        "TLS".to_owned()
    }
}

} // verus!
