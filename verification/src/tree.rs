//! The tree of decoders and the descent through it: from the root, the
//! first linked decoder that applies to the rest of the input adds its
//! layer to the chain, until none applies.
use vstd::prelude::*;
use vstd::slice::slice_subrange;
use crate::layer::{ancestors_view, chain_view, Layer, LayerView};
use crate::layer1::arp::{arp_parse, ArpParser};
use crate::layer1::ethernet::{ethernet_parse, EthernetParser};
use crate::layer2::icmp::{icmp_parse, IcmpParser};
use crate::layer2::icmpv6::{icmpv6_parse, Icmpv6Parser};
use crate::layer2::ipv4::{ipv4_parse, Ipv4Parser};
use crate::layer2::ipv6::{ipv6_parse, Ipv6Parser};
use crate::layer3::tcp::{tcp_parse, TcpParser};
use crate::layer3::tls::{tls_parse, TlsParser};
use crate::layer3::udp::{udp_parse, UdpParser};
use crate::layer4::http::{http_parse, lemma_http_bounds, HttpParser};
use crate::layer4::ntp::{ntp_parse, NtpParser};
use crate::outcome::{layer_of, Outcome, OutcomeView};

verus! {

/// The decoders that a tree can hold.
#[derive(Clone, Copy, Debug, PartialEq, Eq, Hash, Structural)]
pub enum Parser {
    /// Ethernet
    Ethernet,
    /// Address Resolution Protocol
    Arp,
    /// Internet Protocol version 4
    Ipv4,
    /// Internet Protocol version 6
    Ipv6,
    /// Internet Control Message Protocol
    Icmp,
    /// Internet Control Message Protocol version 6
    Icmpv6,
    /// Transmission Control Protocol
    Tcp,
    /// User Datagram Protocol
    Udp,
    /// Transport Layer Security
    Tls,
    /// Hypertext Transfer Protocol
    Http,
    /// Network Time Protocol
    Ntp,
}

/// What the decoder `parser` gives for `s` after the given ancestors.
#[verifier::opaque]
pub open spec fn parser_outcome(
    parser: Parser,
    s: Seq<u8>,
    ancestors: Option<Seq<LayerView>>,
) -> OutcomeView {
    match parser {
        Parser::Ethernet => ethernet_parse(s),
        Parser::Arp => arp_parse(s, ancestors),
        Parser::Ipv4 => ipv4_parse(s, ancestors),
        Parser::Ipv6 => ipv6_parse(s, ancestors),
        Parser::Icmp => icmp_parse(s, ancestors),
        Parser::Icmpv6 => icmpv6_parse(s, ancestors),
        Parser::Tcp => tcp_parse(s, ancestors),
        Parser::Udp => udp_parse(s, ancestors),
        Parser::Tls => tls_parse(s, ancestors),
        Parser::Http => http_parse(s, ancestors),
        Parser::Ntp => ntp_parse(s, ancestors),
    }
}

/// Every decoder stays within its input. One that consumes nothing gives
/// an HTTP layer, and does so only after a chain that ends in another kind
/// of layer: a descent cannot stand still twice in a row.
pub proof fn lemma_progress(parser: Parser, s: Seq<u8>, chain: Seq<LayerView>)
    ensures
        parser_outcome(parser, s, Some(chain)) matches OutcomeView::Decoded { consumed, layer }
            ==> {
            &&& 0 <= consumed <= s.len()
            &&& consumed == 0 ==> layer is Http && chain.len() > 0 && !(chain.last() is Http)
        },
{
    reveal(parser_outcome);
    lemma_http_bounds(s, Some(chain));
}

/// The end of a chain that decoders look at: its last two entries, or all
/// of it where it has no more.
pub open spec fn chain_tail(chain: Seq<LayerView>) -> Seq<LayerView> {
    if chain.len() <= 2 {
        chain
    } else {
        chain.subrange(chain.len() - 2, chain.len() as int)
    }
}

/// `chain` with the entries at `i` and `j` exchanged.
pub open spec fn swapped(chain: Seq<LayerView>, i: int, j: int) -> Seq<LayerView>
    recommends
        0 <= i < chain.len(),
        0 <= j < chain.len(),
{
    chain.update(i, chain[j]).update(j, chain[i])
}

/// What a decoder gives depends on the input and on the end of the chain
/// alone: two chains with the same last two entries get the same outcome
/// from every decoder, whatever stands before those entries and however
/// long the chains are.
pub proof fn lemma_outcome_by_tail(
    parser: Parser,
    s: Seq<u8>,
    a: Seq<LayerView>,
    b: Seq<LayerView>,
)
    requires
        chain_tail(a) == chain_tail(b),
    ensures
        parser_outcome(parser, s, Some(a)) == parser_outcome(parser, s, Some(b)),
{
    reveal(parser_outcome);
    let ta = chain_tail(a);
    assert(ta.len() == (if a.len() <= 2 { a.len() } else { 2 }));
    assert(ta.len() == (if b.len() <= 2 { b.len() } else { 2 }));
    if a.len() > 0 {
        assert(a.last() == ta.last());
        assert(b.last() == ta.last());
    }
    if a.len() >= 2 {
        assert(a[a.len() - 2] == ta[ta.len() - 2]);
        assert(b[b.len() - 2] == ta[ta.len() - 2]);
    }
}

/// Exchanging two entries of a chain before its last two changes nothing
/// for any decoder: an encapsulation that was turned down stays turned
/// down, and one that was accepted stays accepted.
pub proof fn lemma_swap_keeps_outcome(
    parser: Parser,
    s: Seq<u8>,
    chain: Seq<LayerView>,
    i: int,
    j: int,
)
    requires
        0 <= i < chain.len() - 2,
        0 <= j < chain.len() - 2,
    ensures
        parser_outcome(parser, s, Some(swapped(chain, i, j))) == parser_outcome(
            parser,
            s,
            Some(chain),
        ),
{
    assert(chain_tail(swapped(chain, i, j)) =~= chain_tail(chain));
    lemma_outcome_by_tail(parser, s, swapped(chain, i, j), chain);
}

/// The short name of the protocol that `parser` decodes.
pub open spec fn parser_name(parser: Parser) -> Seq<char> {
    match parser {
        Parser::Ethernet => "Ethernet"@,
        Parser::Arp => "ARP"@,
        Parser::Ipv4 => "IPv4"@,
        Parser::Ipv6 => "IPv6"@,
        Parser::Icmp => "ICMP"@,
        Parser::Icmpv6 => "ICMPv6"@,
        Parser::Tcp => "TCP"@,
        Parser::Udp => "UDP"@,
        Parser::Tls => "TLS"@,
        Parser::Http => "HTTP"@,
        Parser::Ntp => "NTP"@,
    }
}

impl Parser {
    /// The short name of the protocol, for diagnostics.
    pub fn to_string(&self) -> (r: String)
        ensures
            r@ == parser_name(*self),
    {
        match self {
            Parser::Ethernet => EthernetParser.to_string(),
            Parser::Arp => ArpParser.to_string(),
            Parser::Ipv4 => Ipv4Parser.to_string(),
            Parser::Ipv6 => Ipv6Parser.to_string(),
            Parser::Icmp => IcmpParser.to_string(),
            Parser::Icmpv6 => Icmpv6Parser.to_string(),
            Parser::Tcp => TcpParser.to_string(),
            Parser::Udp => UdpParser.to_string(),
            Parser::Tls => TlsParser.to_string(),
            Parser::Http => HttpParser.to_string(),
            Parser::Ntp => NtpParser.to_string(),
        }
    }

    /// Runs the decoder on `input` after the given ancestors.
    pub fn parse(&self, input: &[u8], ancestors: Option<&Vec<Layer>>) -> (r: Outcome)
        ensures
            r@ == parser_outcome(*self, input@, ancestors_view(ancestors)),
    {
        reveal(parser_outcome);
        match self {
            Parser::Ethernet => {
                let mut p = EthernetParser;
                p.parse(input, ancestors)
            },
            Parser::Arp => {
                let mut p = ArpParser;
                p.parse(input, ancestors)
            },
            Parser::Ipv4 => {
                let mut p = Ipv4Parser;
                p.parse(input, ancestors)
            },
            Parser::Ipv6 => {
                let mut p = Ipv6Parser;
                p.parse(input, ancestors)
            },
            Parser::Icmp => {
                let mut p = IcmpParser;
                p.parse(input, ancestors)
            },
            Parser::Icmpv6 => {
                let mut p = Icmpv6Parser;
                p.parse(input, ancestors)
            },
            Parser::Tcp => {
                let mut p = TcpParser;
                p.parse(input, ancestors)
            },
            Parser::Udp => {
                let mut p = UdpParser;
                p.parse(input, ancestors)
            },
            Parser::Tls => {
                let mut p = TlsParser;
                p.parse(input, ancestors)
            },
            Parser::Http => {
                let mut p = HttpParser;
                p.parse(input, ancestors)
            },
            Parser::Ntp => {
                let mut p = NtpParser;
                p.parse(input, ancestors)
            },
        }
    }
}

/// A tree of decoders. The decoder registered first is the root. A link is
/// a pair of node numbers, parent first; it says that the child may follow
/// the parent, which the child checks again on every attempt.
#[derive(Clone, Debug)]
pub struct PeelIp {
    /// The decoders, each at its node number
    pub parsers: Vec<Parser>,
    /// The links, in the order they were made
    pub links: Vec<(usize, usize)>,
}

/// What a descent through the tree gives.
#[derive(Debug)]
pub struct PeelResult<'a> {
    /// The chain of decoded layers, outermost first
    pub result: Vec<Layer>,
    /// The input that no decoder consumed
    pub left_input: &'a [u8],
}

/// The mathematical value of a [`PeelResult`].
pub struct Trace {
    pub result: Seq<LayerView>,
    pub left_input: Seq<u8>,
}

impl<'a> View for PeelResult<'a> {
    type V = Trace;

    open spec fn view(&self) -> Trace {
        Trace { result: chain_view(self.result@), left_input: self.left_input@ }
    }
}

/// The node that the first link from `from` on leads to whose parent is
/// `node` and whose child decodes `s` after `chain`. A link to a node that
/// the tree does not hold leads nowhere.
pub open spec fn first_decoding(
    parsers: Seq<Parser>,
    links: Seq<(usize, usize)>,
    node: int,
    from: int,
    s: Seq<u8>,
    chain: Seq<LayerView>,
) -> Option<int>
    decreases links.len() - from,
{
    if from < 0 || from >= links.len() {
        None
    } else if links[from].0 == node && links[from].1 < parsers.len() && parser_outcome(
        parsers[links[from].1 as int],
        s,
        Some(chain),
    ) is Decoded {
        Some(links[from].1 as int)
    } else {
        first_decoding(parsers, links, node, from + 1, s, chain)
    }
}

/// A number that falls with every step of a descent: twice the length of
/// the input that is left, and one more while the chain does not end in an
/// HTTP layer.
pub open spec fn descent_measure(s: Seq<u8>, chain: Seq<LayerView>) -> nat {
    if chain.len() > 0 && chain.last() is Http {
        2 * s.len()
    } else {
        2 * s.len() + 1
    }
}

/// The sixteen links of the standard tree, in the order they are made.
/// The nodes are numbered as `standard_parsers` lists them.
pub open spec fn standard_links() -> Seq<(usize, usize)> {
    seq![
        (0usize, 1usize),
        (0usize, 2usize),
        (0usize, 3usize),
        (2usize, 2usize),
        (2usize, 3usize),
        (3usize, 3usize),
        (2usize, 4usize),
        (3usize, 5usize),
        (2usize, 6usize),
        (3usize, 6usize),
        (2usize, 7usize),
        (3usize, 7usize),
        (6usize, 8usize),
        (6usize, 9usize),
        (8usize, 9usize),
        (7usize, 10usize),
    ]
}

/// The eleven decoders of the standard tree, Ethernet at the root.
pub open spec fn standard_parsers() -> Seq<Parser> {
    seq![
        Parser::Ethernet,
        Parser::Arp,
        Parser::Ipv4,
        Parser::Ipv6,
        Parser::Icmp,
        Parser::Icmpv6,
        Parser::Tcp,
        Parser::Udp,
        Parser::Tls,
        Parser::Http,
        Parser::Ntp,
    ]
}

impl PeelIp {
    /// Every link joins two nodes of the tree.
    pub open spec fn wf(&self) -> bool {
        forall|k: int|
            0 <= k < self.links@.len() ==> (#[trigger] self.links@[k]).0 < self.parsers@.len()
                && self.links@[k].1 < self.parsers@.len()
    }

    /// The descent from `node`, whose layer ends `chain`, through the rest
    /// `s` of the input: the first linked child that decodes `s` adds its
    /// layer and goes on with what it left; where no child decodes, the
    /// descent ends.
    pub open spec fn descend(&self, node: int, s: Seq<u8>, chain: Seq<LayerView>) -> Trace
        decreases descent_measure(s, chain),
    {
        match first_decoding(self.parsers@, self.links@, node, 0, s, chain) {
            Some(child) => match parser_outcome(self.parsers@[child], s, Some(chain)) {
                OutcomeView::Decoded { consumed, layer } => {
                    proof {
                        lemma_progress(self.parsers@[child], s, chain);
                        assert(chain.push(layer).last() == layer);
                    }
                    self.descend(child, s.skip(consumed), chain.push(layer))
                },
                _ => Trace { result: chain, left_input: s },
            },
            None => Trace { result: chain, left_input: s },
        }
    }

    /// What a traversal of `s` gives that starts with the chain `chain`:
    /// the root decodes first, then the descent goes on from it. Where the
    /// tree is empty or the root does not decode, the chain stays as it
    /// was.
    pub open spec fn traverse_spec(&self, s: Seq<u8>, chain: Seq<LayerView>) -> Trace {
        if self.parsers@.len() == 0 {
            Trace { result: chain, left_input: s }
        } else {
            match parser_outcome(self.parsers@[0], s, Some(chain)) {
                OutcomeView::Decoded { consumed, layer } => self.descend(
                    0,
                    s.skip(consumed),
                    chain.push(layer),
                ),
                _ => Trace { result: chain, left_input: s },
            }
        }
    }

    /// One step of a descent: where `child` is the first linked child of
    /// `node` that decodes `s`, the descent from `node` is the descent from
    /// `child` through what `child` left, and its measure is smaller.
    pub proof fn lemma_descend_step(
        &self,
        node: int,
        s: Seq<u8>,
        chain: Seq<LayerView>,
        child: int,
        consumed: int,
        layer: LayerView,
    )
        requires
            first_decoding(self.parsers@, self.links@, node, 0, s, chain) == Some(child),
            parser_outcome(self.parsers@[child], s, Some(chain)) == (OutcomeView::Decoded {
                consumed,
                layer,
            }),
        ensures
            0 <= consumed <= s.len(),
            self.descend(node, s, chain) == self.descend(
                child,
                s.skip(consumed),
                chain.push(layer),
            ),
            descent_measure(s.skip(consumed), chain.push(layer)) < descent_measure(s, chain),
    {
        lemma_progress(self.parsers@[child], s, chain);
        assert(chain.push(layer).last() == layer);
    }

    /// The end of a descent: where no linked child of `node` decodes `s`,
    /// the chain and the input stay as they are.
    pub proof fn lemma_descend_end(&self, node: int, s: Seq<u8>, chain: Seq<LayerView>)
        requires
            first_decoding(self.parsers@, self.links@, node, 0, s, chain) is None,
        ensures
            self.descend(node, s, chain) == (Trace { result: chain, left_input: s }),
    {
    }

    /// A descent only appends to the chain and only takes octets from the
    /// front of the input.
    pub proof fn lemma_descend_extends(&self, node: int, s: Seq<u8>, chain: Seq<LayerView>)
        ensures
            chain.is_prefix_of(self.descend(node, s, chain).result),
            self.descend(node, s, chain).left_input.is_suffix_of(s),
        decreases descent_measure(s, chain),
    {
        match first_decoding(self.parsers@, self.links@, node, 0, s, chain) {
            Some(child) => match parser_outcome(self.parsers@[child], s, Some(chain)) {
                OutcomeView::Decoded { consumed, layer } => {
                    self.lemma_descend_step(node, s, chain, child, consumed, layer);
                    self.lemma_descend_extends(child, s.skip(consumed), chain.push(layer));
                    let t = self.descend(child, s.skip(consumed), chain.push(layer));
                    assert(chain =~= chain.push(layer).subrange(0, chain.len() as int));
                    assert(chain =~= t.result.subrange(0, chain.len() as int));
                    assert(t.left_input =~= s.subrange(s.len() - t.left_input.len(), s.len() as int));
                },
                _ => {
                    assert(chain =~= chain.subrange(0, chain.len() as int));
                    assert(s =~= s.subrange(0, s.len() as int));
                },
            },
            None => {
                assert(chain =~= chain.subrange(0, chain.len() as int));
                assert(s =~= s.subrange(0, s.len() as int));
            },
        }
    }

    /// A traversal never fails and never alters what it was given: the
    /// chain it returns begins with the chain it started from, and the
    /// input it leaves is the end of the input it was handed.
    pub proof fn lemma_traverse_extends(&self, s: Seq<u8>, chain: Seq<LayerView>)
        ensures
            chain.is_prefix_of(self.traverse_spec(s, chain).result),
            self.traverse_spec(s, chain).left_input.is_suffix_of(s),
    {
        assert(chain =~= chain.subrange(0, chain.len() as int));
        assert(s =~= s.subrange(0, s.len() as int));
        if self.parsers@.len() > 0 {
            match parser_outcome(self.parsers@[0], s, Some(chain)) {
                OutcomeView::Decoded { consumed, layer } => {
                    lemma_progress(self.parsers@[0], s, chain);
                    self.lemma_descend_extends(0, s.skip(consumed), chain.push(layer));
                    let t = self.descend(0, s.skip(consumed), chain.push(layer));
                    assert(chain =~= chain.push(layer).subrange(0, chain.len() as int));
                    assert(chain =~= t.result.subrange(0, chain.len() as int));
                    assert(t.left_input =~= s.subrange(s.len() - t.left_input.len(), s.len() as int));
                },
                _ => {},
            }
        }
    }

    /// Whether some decoder of the tree gives `layer` for some input after
    /// the chain `before`.
    pub open spec fn decodes_after(&self, before: Seq<LayerView>, layer: LayerView) -> bool {
        exists|node: int, t: Seq<u8>|
            0 <= node < self.parsers@.len() && layer_of(
                #[trigger] parser_outcome(self.parsers@[node], t, Some(before)),
            ) == Some(layer)
    }

    /// Every layer that a descent appends was decoded by a decoder of the
    /// tree after exactly the layers before it: the chain is in the order
    /// of encapsulation, without gaps.
    pub proof fn lemma_descend_in_order(&self, node: int, s: Seq<u8>, chain: Seq<LayerView>)
        ensures
            forall|k: int|
                chain.len() <= k < self.descend(node, s, chain).result.len()
                    ==> #[trigger] self.decodes_after(
                    self.descend(node, s, chain).result.take(k),
                    self.descend(node, s, chain).result[k],
                ),
        decreases descent_measure(s, chain),
    {
        match first_decoding(self.parsers@, self.links@, node, 0, s, chain) {
            Some(child) => match parser_outcome(self.parsers@[child], s, Some(chain)) {
                OutcomeView::Decoded { consumed, layer } => {
                    self.lemma_descend_step(node, s, chain, child, consumed, layer);
                    self.lemma_first_decoding_in_tree(node, 0, s, chain);
                    let longer = chain.push(layer);
                    self.lemma_descend_in_order(child, s.skip(consumed), longer);
                    self.lemma_descend_extends(child, s.skip(consumed), longer);
                    let result = self.descend(node, s, chain).result;
                    assert(result.take(chain.len() as int) =~= chain);
                    assert(result[chain.len() as int] == longer[chain.len() as int]);
                    assert(self.decodes_after(chain, layer)) by {
                        assert(layer_of(parser_outcome(self.parsers@[child], s, Some(chain)))
                            == Some(layer));
                    }
                },
                _ => {},
            },
            None => {},
        }
    }

    /// The node that `first_decoding` finds is a node of the tree.
    pub proof fn lemma_first_decoding_in_tree(
        &self,
        node: int,
        from: int,
        s: Seq<u8>,
        chain: Seq<LayerView>,
    )
        ensures
            first_decoding(self.parsers@, self.links@, node, from, s, chain) matches Some(child)
                ==> 0 <= child < self.parsers@.len(),
        decreases self.links@.len() - from,
    {
        if 0 <= from < self.links@.len() {
            self.lemma_first_decoding_in_tree(node, from + 1, s, chain);
        }
    }

    /// Every layer that a traversal appends was decoded by a decoder of the
    /// tree after exactly the layers before it.
    pub proof fn lemma_traverse_in_order(&self, s: Seq<u8>, chain: Seq<LayerView>)
        ensures
            forall|k: int|
                chain.len() <= k < self.traverse_spec(s, chain).result.len()
                    ==> #[trigger] self.decodes_after(
                    self.traverse_spec(s, chain).result.take(k),
                    self.traverse_spec(s, chain).result[k],
                ),
    {
        if self.parsers@.len() > 0 {
            match parser_outcome(self.parsers@[0], s, Some(chain)) {
                OutcomeView::Decoded { consumed, layer } => {
                    lemma_progress(self.parsers@[0], s, chain);
                    let longer = chain.push(layer);
                    self.lemma_descend_in_order(0, s.skip(consumed), longer);
                    self.lemma_descend_extends(0, s.skip(consumed), longer);
                    let result = self.traverse_spec(s, chain).result;
                    assert(result.take(chain.len() as int) =~= chain);
                    assert(result[chain.len() as int] == longer[chain.len() as int]);
                    assert(self.decodes_after(chain, layer)) by {
                        assert(layer_of(parser_outcome(self.parsers@[0], s, Some(chain)))
                            == Some(layer));
                    }
                },
                _ => {},
            }
        }
    }

    /// A tree without decoders.
    pub fn new() -> (r: PeelIp)
        ensures
            r.wf(),
            r.parsers@.len() == 0,
            r.links@.len() == 0,
    {
        PeelIp { parsers: Vec::new(), links: Vec::new() }
    }

    /// Registers a decoder and returns its node number. The first decoder
    /// registered is the root.
    pub fn new_parser(&mut self, parser: Parser) -> (node: usize)
        ensures
            old(self).wf() ==> final(self).wf(),
            node == old(self).parsers@.len(),
            final(self).parsers@ == old(self).parsers@.push(parser),
            final(self).links@ == old(self).links@,
    {
        let node: usize = self.parsers.len();
        self.parsers.push(parser);
        node
    }

    /// Links `right` as a candidate child of `left`, behind the children
    /// that `left` has already. A link to or from a node that the tree does
    /// not hold is kept, and leads nowhere.
    pub fn link(&mut self, left: usize, right: usize)
        ensures
            old(self).wf() && left < old(self).parsers@.len() && right < old(self).parsers@.len()
                ==> final(self).wf(),
            final(self).parsers@ == old(self).parsers@,
            final(self).links@ == old(self).links@.push((left, right)),
    {
        self.links.push((left, right));
    }

    /// Makes the given links, in their order.
    pub fn link_nodes(&mut self, edges: &[(usize, usize)])
        ensures
            old(self).wf() && (forall|k: int|
                0 <= k < edges@.len() ==> (#[trigger] edges@[k]).0 < old(self).parsers@.len()
                    && edges@[k].1 < old(self).parsers@.len()) ==> final(self).wf(),
            final(self).parsers@ == old(self).parsers@,
            final(self).links@ == old(self).links@ + edges@,
    {
        let ghost before = self.links@;
        let n: usize = edges.len();
        let mut i: usize = 0;
        while i < n
            invariant
                0 <= i <= n,
                n == edges@.len(),
                self.parsers@ == old(self).parsers@,
                self.links@ == before + edges@.take(i as int),
            decreases n - i,
        {
            let edge: (usize, usize) = edges[i];
            self.link(edge.0, edge.1);
            i = i + 1;
            proof {
                assert(self.links@ =~= before + edges@.take(i as int));
            }
        }
        proof {
            assert(edges@.take(n as int) =~= edges@);
        }
    }

    /// Finds the first linked child of `node` that decodes `rest` after
    /// `chain`, and hands back its node number, the number of octets it
    /// consumed and its layer.
    fn first_child(&self, node: usize, rest: &[u8], chain: &Vec<Layer>) -> (r: Option<
        (usize, usize, Layer),
    >)
        ensures
            match r {
                Some((child, consumed, layer)) => {
                    &&& first_decoding(
                        self.parsers@,
                        self.links@,
                        node as int,
                        0,
                        rest@,
                        chain_view(chain@),
                    ) == Some(child as int)
                    &&& child < self.parsers@.len()
                    &&& parser_outcome(self.parsers@[child as int], rest@, Some(chain_view(chain@)))
                        == (OutcomeView::Decoded { consumed: consumed as int, layer: layer@ })
                },
                None => first_decoding(
                    self.parsers@,
                    self.links@,
                    node as int,
                    0,
                    rest@,
                    chain_view(chain@),
                ) is None,
            },
    {
        let n: usize = self.links.len();
        let mut k: usize = 0;
        while k < n
            invariant
                0 <= k <= n,
                n == self.links@.len(),
                first_decoding(
                    self.parsers@,
                    self.links@,
                    node as int,
                    0,
                    rest@,
                    chain_view(chain@),
                ) == first_decoding(
                    self.parsers@,
                    self.links@,
                    node as int,
                    k as int,
                    rest@,
                    chain_view(chain@),
                ),
            decreases n - k,
        {
            let edge: (usize, usize) = self.links[k];
            if edge.0 == node && edge.1 < self.parsers.len() {
                let child: usize = edge.1;
                match self.parsers[child].parse(rest, Some(chain)) {
                    Outcome::Decoded { consumed, layer } => {
                        return Some((child, consumed, layer));
                    },
                    _ => {},
                }
            }
            k = k + 1;
        }
        None
    }

    /// Decodes `input` layer by layer. The root decodes first; after each
    /// layer the children of the decoder that gave it are tried in the
    /// order of their links, and the first that decodes what is left goes
    /// on. A decoder that asks for more input or turns the input down only
    /// ends the descent: the chain built so far is the result.
    pub fn traverse<'a>(&self, input: &'a [u8], result: Vec<Layer>) -> (r: PeelResult<'a>)
        ensures
            r@ == self.traverse_spec(input@, chain_view(result@)),
    {
        let n: usize = input.len();
        let mut chain: Vec<Layer> = result;
        if self.parsers.len() == 0 {
            return PeelResult { result: chain, left_input: input };
        }
        let mut node: usize = 0;
        let mut pos: usize = 0;
        let ghost goal = self.traverse_spec(input@, chain_view(result@));
        match self.parsers[0].parse(input, Some(&chain)) {
            Outcome::Decoded { consumed, layer } => {
                proof {
                    lemma_progress(self.parsers@[0], input@, chain_view(chain@));
                    assert(chain_view(chain@.push(layer)) =~= chain_view(chain@).push(layer@));
                }
                chain.push(layer);
                pos = consumed;
            },
            _ => {
                return PeelResult { result: chain, left_input: input };
            },
        }
        loop
            invariant
                n == input@.len(),
                pos <= n,
                goal == self.traverse_spec(input@, chain_view(result@)),
                goal == self.descend(node as int, input@.skip(pos as int), chain_view(chain@)),
            decreases descent_measure(input@.skip(pos as int), chain_view(chain@)),
        {
            let rest: &[u8] = slice_subrange(input, pos, n);
            proof {
                assert(rest@ =~= input@.skip(pos as int));
            }
            match self.first_child(node, rest, &chain) {
                Some((child, consumed, layer)) => {
                    proof {
                        self.lemma_descend_step(
                            node as int,
                            rest@,
                            chain_view(chain@),
                            child as int,
                            consumed as int,
                            layer@,
                        );
                        assert(chain_view(chain@.push(layer)) =~= chain_view(chain@).push(layer@));
                        assert(input@.skip(pos as int).skip(consumed as int) =~= input@.skip(
                            pos + consumed,
                        ));
                    }
                    chain.push(layer);
                    pos = pos + consumed;
                    node = child;
                },
                None => {
                    proof {
                        self.lemma_descend_end(node as int, rest@, chain_view(chain@));
                    }
                    return PeelResult { result: chain, left_input: rest };
                },
            }
        }
    }
}

/// The standard tree of the Internet protocol suite.
pub trait NewPeelIp {
    /// Builds the standard tree: Ethernet at the root; ARP, IPv4 and IPv6
    /// below it; IPv4 and IPv6 inside IPv4, and IPv6 inside IPv6; ICMP, TCP
    /// and UDP below IPv4; ICMPv6, TCP and UDP below IPv6; TLS and HTTP
    /// below TCP, HTTP below TLS, and NTP below UDP.
    fn default() -> (r: PeelIp)
        ensures
            r.wf(),
            r.parsers@ == standard_parsers(),
            r.links@ == standard_links(),
    ;
}

impl NewPeelIp for PeelIp {
    fn default() -> (r: PeelIp) {
        let mut p = PeelIp::new();
        let eth: usize = p.new_parser(Parser::Ethernet);
        let arp: usize = p.new_parser(Parser::Arp);
        let ipv4: usize = p.new_parser(Parser::Ipv4);
        let ipv6: usize = p.new_parser(Parser::Ipv6);
        let icmp: usize = p.new_parser(Parser::Icmp);
        let icmpv6: usize = p.new_parser(Parser::Icmpv6);
        let tcp: usize = p.new_parser(Parser::Tcp);
        let udp: usize = p.new_parser(Parser::Udp);
        let tls: usize = p.new_parser(Parser::Tls);
        let http: usize = p.new_parser(Parser::Http);
        let ntp: usize = p.new_parser(Parser::Ntp);
        p.link(eth, arp);
        p.link(eth, ipv4);
        p.link(eth, ipv6);
        p.link(ipv4, ipv4);
        p.link(ipv4, ipv6);
        p.link(ipv6, ipv6);
        p.link(ipv4, icmp);
        p.link(ipv6, icmpv6);
        p.link(ipv4, tcp);
        p.link(ipv6, tcp);
        p.link(ipv4, udp);
        p.link(ipv6, udp);
        p.link(tcp, tls);
        p.link(tcp, http);
        p.link(tls, http);
        p.link(udp, ntp);
        proof {
            assert(p.parsers@ =~= standard_parsers());
            assert(p.links@ =~= standard_links());
        }
        p
    }
}

} // verus!
