//! What one decoding attempt can end in.
use vstd::prelude::*;
use vstd::slice::slice_subrange;
use crate::layer::{Layer, LayerView};

verus! {

/// How many further octets a decoder needs before it can decide.
#[derive(Clone, Copy, Debug, PartialEq, Eq, Structural)]
pub enum Needed {
    /// The number cannot be told from what was read.
    Unknown,
    /// This many octets are missing from the part that was being read: from
    /// a header of fixed size, from the options that a header announces,
    /// or from a literal word of a text grammar. Where a text field ends
    /// with the input, one octet is missing.
    Size(usize),
}

/// Why a decoder does not apply.
#[derive(Clone, Copy, Debug, PartialEq, Eq, Structural)]
pub enum RejectReason {
    /// The end of the ancestor chain does not announce this protocol.
    Ancestor,
    /// The version field holds another version.
    Version,
    /// A field holds a value outside its enumeration.
    UnknownValue,
    /// A length field holds a value too small for the header itself.
    Length,
    /// The octets follow none of the alternatives of the text grammar.
    Grammar,
}

/// The result of one decoding attempt.
#[derive(Clone, Debug, PartialEq, Eq)]
pub enum Outcome {
    /// The record was decoded from the first `consumed` octets of the input;
    /// what remains of the input begins behind them.
    Decoded { consumed: usize, layer: Layer },
    /// The input ends before the result can be told.
    Incomplete(Needed),
    /// The decoder does not apply here; `offset` is where that showed.
    Rejected { reason: RejectReason, offset: usize },
}

/// The mathematical value of an [`Outcome`].
pub enum OutcomeView {
    Decoded { consumed: int, layer: LayerView },
    Incomplete(Needed),
    Rejected { reason: RejectReason, offset: int },
}

impl View for Outcome {
    type V = OutcomeView;

    open spec fn view(&self) -> OutcomeView {
        match *self {
            Outcome::Decoded { consumed, layer } => OutcomeView::Decoded {
                consumed: consumed as int,
                layer: layer@,
            },
            Outcome::Incomplete(needed) => OutcomeView::Incomplete(needed),
            Outcome::Rejected { reason, offset } => OutcomeView::Rejected {
                reason,
                offset: offset as int,
            },
        }
    }
}

/// The outcome of a decoder that found `have` octets where it needs `want`.
pub open spec fn short_by(want: nat, have: nat) -> OutcomeView
    recommends
        have < want,
{
    OutcomeView::Incomplete(Needed::Size((want - have) as usize))
}

/// The outcome of a decoder that read `layer` from the first `consumed`
/// octets.
pub open spec fn decoded(consumed: nat, layer: LayerView) -> OutcomeView {
    OutcomeView::Decoded { consumed: consumed as int, layer }
}

/// The outcome of a decoder that turns the input down at `offset`.
pub open spec fn rejected_at(reason: RejectReason, offset: int) -> OutcomeView {
    OutcomeView::Rejected { reason, offset }
}

/// The layer of an outcome that holds one.
pub open spec fn layer_of(outcome: OutcomeView) -> Option<LayerView> {
    match outcome {
        OutcomeView::Decoded { layer, .. } => Some(layer),
        _ => None,
    }
}

/// What a decoder with the outcome `outcome` left of the input `s`: the
/// octets behind those it consumed, where it decoded a layer from `s`.
pub open spec fn remaining_after(outcome: OutcomeView, s: Seq<u8>) -> Option<Seq<u8>> {
    match outcome {
        OutcomeView::Decoded { consumed, .. } => if 0 <= consumed <= s.len() {
            Some(s.skip(consumed))
        } else {
            None
        },
        _ => None,
    }
}

impl Outcome {
    /// The input that a decoder left over: what follows the octets it
    /// consumed of `input`. There is none where nothing was decoded, or
    /// where `input` is shorter than what was consumed.
    pub fn remaining<'a>(&self, input: &'a [u8]) -> (r: Option<&'a [u8]>)
        ensures
            r is Some <==> remaining_after(self@, input@) is Some,
            r matches Some(rest) ==> Some(rest@) == remaining_after(self@, input@),
    {
        match self {
            Outcome::Decoded { consumed, .. } => {
                let n: usize = input.len();
                if *consumed <= n {
                    let rest: &[u8] = slice_subrange(input, *consumed, n);
                    proof {
                        assert(rest@ =~= input@.skip(*consumed as int));
                    }
                    Some(rest)
                } else {
                    None
                }
            },
            _ => None,
        }
    }
}

} // verus!
