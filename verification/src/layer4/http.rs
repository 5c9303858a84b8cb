//! Hypertext Transfer Protocol message heads.
use vstd::prelude::*;
use vstd::array::array_as_slice;
use crate::layer::{ancestors_view, Layer, LayerView};
use crate::layer4::text::{decimal, digits_end, field_end, lemma_digits_end, lemma_find_octet,
    lemma_skip_spaces, literal, number, or_else, skip_spaces, skip_whitespace, tag, take_number,
    take_text_until, take_until, text_field, Scan, Step};
use crate::outcome::{rejected_at, Outcome, OutcomeView, RejectReason};

verus! {

/// The HTTP decoder.
#[derive(Clone, Copy, Debug)]
pub struct HttpParser;

/// The request methods that are recognised.
#[derive(Clone, Copy, Debug, PartialEq, Eq, Hash, Structural)]
pub enum HttpRequestMethod {
    /// Requests a representation of the resource
    Get,
    /// Submits an entity to the resource
    Post,
    /// As `Get`, without the response body
    Head,
    /// Stores the enclosed entity under the resource
    Put,
    /// Deletes the resource
    Delete,
    /// Echoes the received request
    Trace,
    /// Asks which methods the resource supports
    Options,
    /// Turns the connection into a tunnel
    Connect,
    /// Applies partial modifications to the resource
    Patch,
}

impl View for HttpRequestMethod {
    type V = HttpRequestMethod;

    open spec fn view(&self) -> HttpRequestMethod {
        *self
    }
}

/// The protocol version of an HTTP message.
#[derive(Clone, Copy, Debug, PartialEq, Eq)]
pub struct HttpVersion {
    /// Major part of the version
    pub major: u8,
    /// Minor part of the version
    pub minor: u8,
}

impl View for HttpVersion {
    type V = HttpVersion;

    open spec fn view(&self) -> HttpVersion {
        *self
    }
}

/// One header field of an HTTP message.
#[derive(Clone, Debug, PartialEq, Eq)]
pub struct HttpHeader {
    /// The field name, like "Host"
    pub key: String,
    /// The field value, like "www.domain.com"
    pub value: String,
}

/// The mathematical value of an [`HttpHeader`].
pub struct HttpHeaderView {
    pub key: Seq<char>,
    pub value: Seq<char>,
}

impl View for HttpHeader {
    type V = HttpHeaderView;

    open spec fn view(&self) -> HttpHeaderView {
        HttpHeaderView { key: self.key@, value: self.value@ }
    }
}

/// The mathematical values of a list of header fields, in their order.
pub open spec fn header_views(headers: Seq<HttpHeader>) -> Seq<HttpHeaderView> {
    headers.map_values(|h: HttpHeader| h@)
}

/// The head of an HTTP request.
#[derive(Clone, Debug, PartialEq, Eq)]
pub struct HttpRequest {
    /// The request method
    pub request_method: HttpRequestMethod,
    /// The protocol version
    pub version: HttpVersion,
    /// The path that is asked for
    pub path: String,
    /// The header fields, in the order they were sent
    pub headers: Vec<HttpHeader>,
}

/// The mathematical value of an [`HttpRequest`].
pub struct HttpRequestView {
    pub request_method: HttpRequestMethod,
    pub version: HttpVersion,
    pub path: Seq<char>,
    pub headers: Seq<HttpHeaderView>,
}

impl View for HttpRequest {
    type V = HttpRequestView;

    open spec fn view(&self) -> HttpRequestView {
        HttpRequestView {
            request_method: self.request_method,
            version: self.version,
            path: self.path@,
            headers: header_views(self.headers@),
        }
    }
}

/// The head of an HTTP response.
#[derive(Clone, Debug, PartialEq, Eq)]
pub struct HttpResponse {
    /// The protocol version
    pub version: HttpVersion,
    /// The status code
    pub code: u16,
    /// The reason phrase that comes with the status code
    pub reason: String,
    /// The header fields, in the order they were sent
    pub headers: Vec<HttpHeader>,
}

/// The mathematical value of an [`HttpResponse`].
pub struct HttpResponseView {
    pub version: HttpVersion,
    pub code: u16,
    pub reason: Seq<char>,
    pub headers: Seq<HttpHeaderView>,
}

impl View for HttpResponse {
    type V = HttpResponseView;

    open spec fn view(&self) -> HttpResponseView {
        HttpResponseView {
            version: self.version,
            code: self.code,
            reason: self.reason@,
            headers: header_views(self.headers@),
        }
    }
}

/// What the HTTP decoder found.
#[derive(Clone, Debug, PartialEq, Eq)]
pub enum HttpPacket {
    /// A request head
    Request(HttpRequest),
    /// A response head
    Response(HttpResponse),
    /// Traffic inside TLS on the HTTPS port, of which nothing can be decoded
    Any,
}

/// The mathematical value of an [`HttpPacket`].
pub enum HttpPacketView {
    Request(HttpRequestView),
    Response(HttpResponseView),
    Any,
}

impl View for HttpPacket {
    type V = HttpPacketView;

    open spec fn view(&self) -> HttpPacketView {
        match *self {
            HttpPacket::Request(r) => HttpPacketView::Request(r@),
            HttpPacket::Response(r) => HttpPacketView::Response(r@),
            HttpPacket::Any => HttpPacketView::Any,
        }
    }
}

/// The port on which HTTP inside TLS is served.
pub const HTTPS_PORT: u16 = 443;

/// The octets of a request method as it is written, in upper case.
pub open spec fn method_word(method: HttpRequestMethod) -> Seq<u8> {
    match method {
        HttpRequestMethod::Get => seq![71u8, 69u8, 84u8],
        HttpRequestMethod::Post => seq![80u8, 79u8, 83u8, 84u8],
        HttpRequestMethod::Head => seq![72u8, 69u8, 65u8, 68u8],
        HttpRequestMethod::Put => seq![80u8, 85u8, 84u8],
        HttpRequestMethod::Delete => seq![68u8, 69u8, 76u8, 69u8, 84u8, 69u8],
        HttpRequestMethod::Trace => seq![84u8, 82u8, 65u8, 67u8, 69u8],
        HttpRequestMethod::Options => seq![79u8, 80u8, 84u8, 73u8, 79u8, 78u8, 83u8],
        HttpRequestMethod::Connect => seq![67u8, 79u8, 78u8, 78u8, 69u8, 67u8, 84u8],
        HttpRequestMethod::Patch => seq![80u8, 65u8, 84u8, 67u8, 72u8],
    }
}

/// The octets of a request method and of the single space that parts it
/// from the path.
pub open spec fn method_token(method: HttpRequestMethod) -> Seq<u8> {
    method_word(method).push(32)
}

/// The octets of the single space that parts the version of a response
/// from its status code.
pub open spec fn space() -> Seq<u8> {
    seq![32u8]
}

/// The octets of `HTTP/`, which introduces the version.
pub open spec fn protocol_word() -> Seq<u8> {
    seq![72u8, 84u8, 84u8, 80u8, 47u8]
}

/// The octets of the dot between the two parts of a version.
pub open spec fn version_dot() -> Seq<u8> {
    seq![46u8]
}

/// The octets of a colon and a space, which part a field name from its
/// value.
pub open spec fn field_separator() -> Seq<u8> {
    seq![58u8, 32u8]
}

/// The octets of two line ends in a row: the end of the last header line
/// and the blank line that closes the head.
pub open spec fn head_end() -> Seq<u8> {
    seq![13u8, 10u8, 13u8, 10u8]
}

/// What is left of a reading that did not succeed, for a reading of
/// another type that depended on it.
pub open spec fn pass<T, U>(r: Scan<T>) -> Scan<U>
    recommends
        !(r is Done),
{
    match r {
        Scan::Incomplete(needed) => Scan::Incomplete(needed),
        _ => Scan::Error,
    }
}

/// Reading the word of `method` and the space behind it at `at`, and
/// passing over the whitespace that follows.
pub open spec fn method_at(s: Seq<u8>, at: int, method: HttpRequestMethod) -> Scan<
    HttpRequestMethod,
> {
    match literal(s, at, method_token(method)) {
        Scan::Done { next, .. } => Scan::Done { next: skip_spaces(s, next), value: method },
        other => pass(other),
    }
}

/// Reading a request method at `at`: the nine words, each with its space,
/// are tried in a fixed order, and the first that is there, or that the
/// input ends in, decides.
pub open spec fn any_method_at(s: Seq<u8>, at: int) -> Scan<HttpRequestMethod> {
    or_else(
        method_at(s, at, HttpRequestMethod::Get),
        or_else(
            method_at(s, at, HttpRequestMethod::Post),
            or_else(
                method_at(s, at, HttpRequestMethod::Head),
                or_else(
                    method_at(s, at, HttpRequestMethod::Put),
                    or_else(
                        method_at(s, at, HttpRequestMethod::Delete),
                        or_else(
                            method_at(s, at, HttpRequestMethod::Trace),
                            or_else(
                                method_at(s, at, HttpRequestMethod::Options),
                                or_else(
                                    method_at(s, at, HttpRequestMethod::Connect),
                                    method_at(s, at, HttpRequestMethod::Patch),
                                ),
                            ),
                        ),
                    ),
                ),
            ),
        ),
    )
}

/// Reading a version at `at`: two decimal numbers of at most 255 with a
/// dot between them.
pub open spec fn version_at(s: Seq<u8>, at: int) -> Scan<HttpVersion> {
    match number(s, at, 255) {
        Scan::Done { next: dot, value: major } => match literal(s, dot, version_dot()) {
            Scan::Done { next: after, .. } => match number(s, after, 255) {
                Scan::Done { next, value: minor } => Scan::Done {
                    next,
                    value: HttpVersion { major: major as u8, minor: minor as u8 },
                },
                other => pass(other),
            },
            other => pass(other),
        },
        other => pass(other),
    }
}

/// Reading a status code at `at`: the field up to the next space, which
/// has to be one or more digits that write a number of at most 65535.
pub open spec fn status_at(s: Seq<u8>, at: int) -> Scan<u16> {
    match field_end(s, at, 32) {
        Scan::Done { next, .. } => if at < next && digits_end(s, at) == next && decimal(
            s,
            at,
            next,
        ) <= 65535 {
            Scan::Done { next, value: decimal(s, at, next) as u16 }
        } else {
            Scan::Error
        },
        other => pass(other),
    }
}

/// Reading one header line at `at`: whitespace, the name up to a colon,
/// colon and space, and the value up to the carriage return, which is not
/// consumed.
pub open spec fn header_at(s: Seq<u8>, at: int) -> Scan<HttpHeaderView> {
    match text_field(s, skip_spaces(s, at), 58) {
        Scan::Done { next: colon, value: key } => match literal(s, colon, field_separator()) {
            Scan::Done { next: after, .. } => match text_field(s, after, 13) {
                Scan::Done { next, value } => Scan::Done {
                    next,
                    value: HttpHeaderView { key, value },
                },
                other => pass(other),
            },
            other => pass(other),
        },
        other => pass(other),
    }
}

/// `r` with `front` put before the list that it holds.
pub open spec fn prepend(front: Seq<HttpHeaderView>, r: Scan<Seq<HttpHeaderView>>) -> Scan<
    Seq<HttpHeaderView>,
> {
    match r {
        Scan::Done { next, value } => Scan::Done { next, value: front + value },
        other => other,
    }
}

/// Reading the header block at `at`: header lines up to the place where
/// two line ends in a row stand, which are consumed. There may be no line
/// at all. The lines keep their order, and lines of one name stay apart.
pub open spec fn headers_at(s: Seq<u8>, at: int) -> Scan<Seq<HttpHeaderView>>
    decreases s.len() - at,
{
    if literal(s, at, head_end()) is Done {
        Scan::Done { next: at + 4, value: Seq::empty() }
    } else {
        match header_at(s, at) {
            Scan::Done { next, value } => if at < next {
                prepend(seq![value], headers_at(s, next))
            } else {
                Scan::Error
            },
            other => pass(other),
        }
    }
}

/// Reading a request head from the start of `s`: the method and a space,
/// the path up to the next space, `HTTP/` and the version, then the header
/// block. Further whitespace before the method, the path, `HTTP/`, the
/// version and each header line is passed over, and so is the whitespace
/// that follows the blank line.
pub open spec fn request_at(s: Seq<u8>) -> Scan<HttpRequestView> {
    match any_method_at(s, skip_spaces(s, 0)) {
        Scan::Done { next: end1, value: request_method } => match text_field(s, end1, 32) {
            Scan::Done { next: end2, value: path } => match literal(
                s,
                skip_spaces(s, end2),
                protocol_word(),
            ) {
                Scan::Done { next: end3, .. } => match version_at(s, skip_spaces(s, end3)) {
                    Scan::Done { next: end4, value: version } => match headers_at(s, end4) {
                        Scan::Done { next: end5, value: headers } => Scan::Done {
                            next: skip_spaces(s, end5),
                            value: HttpRequestView { request_method, version, path, headers },
                        },
                        other => pass(other),
                    },
                    other => pass(other),
                },
                other => pass(other),
            },
            other => pass(other),
        },
        other => pass(other),
    }
}

/// Reading a response head from the start of `s`: `HTTP/` and the
/// version, a space, the status code up to the next space, the reason
/// phrase up to the carriage return, then the header block. Further
/// whitespace before `HTTP/`, the version, the status code, the reason
/// phrase and each header line is passed over, and so is the whitespace
/// that follows the blank line.
pub open spec fn response_at(s: Seq<u8>) -> Scan<HttpResponseView> {
    match literal(s, skip_spaces(s, 0), protocol_word()) {
        Scan::Done { next: end1, .. } => match version_at(s, skip_spaces(s, end1)) {
            Scan::Done { next: end2, value: version } => match literal(s, end2, space()) {
                Scan::Done { next: end3, .. } => match status_at(s, skip_spaces(s, end3)) {
                    Scan::Done { next: end4, value: code } => match text_field(
                        s,
                        skip_spaces(s, end4),
                        13,
                    ) {
                        Scan::Done { next: end5, value: reason } => match headers_at(s, end5) {
                            Scan::Done { next: end6, value: headers } => Scan::Done {
                                next: skip_spaces(s, end6),
                                value: HttpResponseView { version, code, reason, headers },
                            },
                            other => pass(other),
                        },
                        other => pass(other),
                    },
                    other => pass(other),
                },
                other => pass(other),
            },
            other => pass(other),
        },
        other => pass(other),
    }
}

/// Reading a plain text head from the start of `s`: a request, or else a
/// response. A request that the input ends in stands, and the response is
/// not tried.
pub open spec fn plain_at(s: Seq<u8>) -> Scan<HttpPacketView> {
    match request_at(s) {
        Scan::Done { next, value } => Scan::Done { next, value: HttpPacketView::Request(value) },
        Scan::Incomplete(needed) => Scan::Incomplete(needed),
        Scan::Error => match response_at(s) {
            Scan::Done { next, value } => Scan::Done {
                next,
                value: HttpPacketView::Response(value),
            },
            other => pass(other),
        },
    }
}

/// Whether a plain text head may follow the given ancestors: no chain at
/// all, or a chain that ends in a TCP header.
pub open spec fn http_plain_accepts(ancestors: Option<Seq<LayerView>>) -> bool {
    match ancestors {
        None => true,
        Some(chain) => chain.len() > 0 && chain.last() is Tcp,
    }
}

/// Whether the given ancestors show HTTP inside TLS: the chain ends in a
/// TCP header and then a TLS record header, and one of the two ports of the
/// TCP header is the HTTPS port.
pub open spec fn http_encrypted_accepts(ancestors: Option<Seq<LayerView>>) -> bool {
    match ancestors {
        None => false,
        Some(chain) => chain.len() >= 2 && chain[chain.len() - 1] is Tls && match chain[chain.len()
            - 2] {
            LayerView::Tcp(tcp) => tcp.header.source_port == HTTPS_PORT || tcp.header.dest_port
                == HTTPS_PORT,
            _ => false,
        },
    }
}

/// The marker for encrypted traffic where the ancestors show HTTP inside
/// TLS, read from no octets at all; a mismatch where they do not.
pub open spec fn encrypted_at(ancestors: Option<Seq<LayerView>>) -> Scan<HttpPacketView> {
    if http_encrypted_accepts(ancestors) {
        Scan::Done { next: 0, value: HttpPacketView::Any }
    } else {
        Scan::Error
    }
}

/// What the HTTP decoder gives for `s` after the given ancestors. The
/// plain text grammar is tried where the ancestors allow it; where it is
/// not allowed or does not match, the marker for encrypted traffic is given
/// where the ancestors show HTTP inside TLS. What is left is turned down at
/// the start of the input: for the grammar where it was tried, else for the
/// ancestors.
pub open spec fn http_parse(s: Seq<u8>, ancestors: Option<Seq<LayerView>>) -> OutcomeView {
    let plain = if http_plain_accepts(ancestors) {
        plain_at(s)
    } else {
        Scan::Error
    };
    match or_else(plain, encrypted_at(ancestors)) {
        Scan::Done { next, value } => OutcomeView::Decoded {
            consumed: next,
            layer: LayerView::Http(value),
        },
        Scan::Incomplete(needed) => OutcomeView::Incomplete(needed),
        Scan::Error => if http_plain_accepts(ancestors) {
            rejected_at(RejectReason::Grammar, 0)
        } else {
            rejected_at(RejectReason::Ancestor, 0)
        },
    }
}

/// A method that was read ends within the input, behind where it began.
pub proof fn lemma_method_bounds(s: Seq<u8>, at: int)
    requires
        0 <= at <= s.len(),
    ensures
        any_method_at(s, at) matches Scan::Done { next, .. } ==> at < next <= s.len(),
{
    assert forall|m: HttpRequestMethod|
        (#[trigger] method_at(s, at, m) matches Scan::Done { next, .. } ==> at < next <= s.len()) by {
        if let Scan::Done { next: end, .. } = literal(s, at, method_token(m)) {
            lemma_skip_spaces(s, end);
        }
    }
}

/// A version that was read ends within the input, behind where it began.
pub proof fn lemma_version_bounds(s: Seq<u8>, at: int)
    requires
        0 <= at <= s.len(),
    ensures
        version_at(s, at) matches Scan::Done { next, .. } ==> at < next <= s.len(),
{
    lemma_digits_end(s, at);
    if let Scan::Done { next: dot, .. } = number(s, at, 255) {
        if let Scan::Done { next: after, .. } = literal(s, dot, version_dot()) {
            lemma_digits_end(s, after);
        }
    }
}

/// A header line that was read ends within the input, behind where it
/// began.
pub proof fn lemma_header_bounds(s: Seq<u8>, at: int)
    requires
        0 <= at <= s.len(),
    ensures
        header_at(s, at) matches Scan::Done { next, .. } ==> at < next < s.len(),
{
    lemma_skip_spaces(s, at);
    let start = skip_spaces(s, at);
    lemma_find_octet(s, start, 58);
    if let Scan::Done { next: colon, .. } = text_field(s, start, 58) {
        if let Scan::Done { next: after, .. } = literal(s, colon, field_separator()) {
            lemma_find_octet(s, after, 13);
        }
    }
}

/// A header block that was read ends within the input, behind where it
/// began.
pub proof fn lemma_headers_bounds(s: Seq<u8>, at: int)
    requires
        0 <= at <= s.len(),
    ensures
        headers_at(s, at) matches Scan::Done { next, .. } ==> at < next <= s.len(),
    decreases s.len() - at,
{
    if literal(s, at, head_end()) is Done {
    } else {
        lemma_header_bounds(s, at);
        if let Scan::Done { next, .. } = header_at(s, at) {
            lemma_headers_bounds(s, next);
        }
    }
}

/// A request head that was read ends within the input, and holds at least
/// one octet.
pub proof fn lemma_request_bounds(s: Seq<u8>)
    ensures
        request_at(s) matches Scan::Done { next, .. } ==> 0 < next <= s.len(),
{
    lemma_skip_spaces(s, 0);
    lemma_method_bounds(s, skip_spaces(s, 0));
    if let Scan::Done { next: end1, .. } = any_method_at(s, skip_spaces(s, 0)) {
        lemma_find_octet(s, end1, 32);
        if let Scan::Done { next: end2, .. } = text_field(s, end1, 32) {
            lemma_skip_spaces(s, end2);
            if let Scan::Done { next: end3, .. } = literal(s, skip_spaces(s, end2), protocol_word()) {
                lemma_skip_spaces(s, end3);
                lemma_version_bounds(s, skip_spaces(s, end3));
                if let Scan::Done { next: end4, .. } = version_at(s, skip_spaces(s, end3)) {
                    lemma_headers_bounds(s, end4);
                    if let Scan::Done { next: end5, .. } = headers_at(s, end4) {
                        lemma_skip_spaces(s, end5);
                    }
                }
            }
        }
    }
}

/// A response head that was read ends within the input, and holds at
/// least one octet.
pub proof fn lemma_response_bounds(s: Seq<u8>)
    ensures
        response_at(s) matches Scan::Done { next, .. } ==> 0 < next <= s.len(),
{
    lemma_skip_spaces(s, 0);
    if let Scan::Done { next: end1, .. } = literal(s, skip_spaces(s, 0), protocol_word()) {
        lemma_skip_spaces(s, end1);
        lemma_version_bounds(s, skip_spaces(s, end1));
        if let Scan::Done { next: end2, .. } = version_at(s, skip_spaces(s, end1)) {
            if let Scan::Done { next: end3, .. } = literal(s, end2, space()) {
                lemma_skip_spaces(s, end3);
                lemma_find_octet(s, skip_spaces(s, end3), 32);
                if let Scan::Done { next: end4, .. } = status_at(s, skip_spaces(s, end3)) {
                    lemma_skip_spaces(s, end4);
                    lemma_find_octet(s, skip_spaces(s, end4), 13);
                    if let Scan::Done { next: end5, .. } = text_field(
                        s,
                        skip_spaces(s, end4),
                        13,
                    ) {
                        lemma_headers_bounds(s, end5);
                        if let Scan::Done { next: end6, .. } = headers_at(s, end5) {
                            lemma_skip_spaces(s, end6);
                        }
                    }
                }
            }
        }
    }
}

/// Whatever the HTTP decoder decodes lies within the input. It decodes
/// nothing after a chain that ends in an HTTP layer, and an input of which
/// it consumes nothing gives the marker for encrypted traffic.
pub proof fn lemma_http_bounds(s: Seq<u8>, ancestors: Option<Seq<LayerView>>)
    ensures
        http_parse(s, ancestors) matches OutcomeView::Decoded { consumed, layer } ==> {
            &&& 0 <= consumed <= s.len()
            &&& layer is Http
            &&& consumed == 0 ==> layer == LayerView::Http(HttpPacketView::Any)
            &&& ancestors matches Some(chain) ==> chain.len() > 0 && !(chain.last() is Http)
        },
{
    lemma_request_bounds(s);
    lemma_response_bounds(s);
}

/// The header list of a reading, taken by its value.
pub open spec fn headers_scan(r: Step<Vec<HttpHeader>>) -> Scan<Seq<HttpHeaderView>> {
    match r {
        Step::Done { next, value } => Scan::Done { next: next as int, value: header_views(value@) },
        Step::Incomplete(needed) => Scan::Incomplete(needed),
        Step::Failed => Scan::Error,
    }
}

/// Reads the word of `method` and the space behind it at `at`, and passes
/// over the whitespace that follows.
fn take_method(input: &[u8], at: usize, word: &[u8], method: HttpRequestMethod) -> (r: Step<
    HttpRequestMethod,
>)
    requires
        at <= input@.len(),
        word@ == method_token(method),
    ensures
        r@ == method_at(input@, at as int, method),
        r matches Step::Done { next, .. } ==> next <= input@.len(),
{
    match tag(input, at, word) {
        Step::Done { next, value: _ } => Step::Done {
            next: skip_whitespace(input, next),
            value: method,
        },
        Step::Incomplete(needed) => Step::Incomplete(needed),
        Step::Failed => Step::Failed,
    }
}

impl HttpRequestMethod {
    /// Reads a request method and the space behind it at `at`, and passes
    /// over the whitespace that follows. The match is exact and
    /// case-sensitive.
    pub fn parse(input: &[u8], at: usize) -> (r: Step<HttpRequestMethod>)
        requires
            at <= input@.len(),
        ensures
            r@ == any_method_at(input@, at as int),
            r matches Step::Done { next, .. } ==> next <= input@.len(),
    {
        let get: [u8; 4] = [71, 69, 84, 32];
        let post: [u8; 5] = [80, 79, 83, 84, 32];
        let head: [u8; 5] = [72, 69, 65, 68, 32];
        let put: [u8; 4] = [80, 85, 84, 32];
        let delete: [u8; 7] = [68, 69, 76, 69, 84, 69, 32];
        let trace: [u8; 6] = [84, 82, 65, 67, 69, 32];
        let options: [u8; 8] = [79, 80, 84, 73, 79, 78, 83, 32];
        let connect: [u8; 8] = [67, 79, 78, 78, 69, 67, 84, 32];
        let patch: [u8; 6] = [80, 65, 84, 67, 72, 32];
        proof {
            assert(get@ =~= method_token(HttpRequestMethod::Get));
            assert(post@ =~= method_token(HttpRequestMethod::Post));
            assert(head@ =~= method_token(HttpRequestMethod::Head));
            assert(put@ =~= method_token(HttpRequestMethod::Put));
            assert(delete@ =~= method_token(HttpRequestMethod::Delete));
            assert(trace@ =~= method_token(HttpRequestMethod::Trace));
            assert(options@ =~= method_token(HttpRequestMethod::Options));
            assert(connect@ =~= method_token(HttpRequestMethod::Connect));
            assert(patch@ =~= method_token(HttpRequestMethod::Patch));
        }
        let r = take_method(input, at, array_as_slice(&get), HttpRequestMethod::Get);
        if !matches!(r, Step::Failed) {
            return r;
        }
        let r = take_method(input, at, array_as_slice(&post), HttpRequestMethod::Post);
        if !matches!(r, Step::Failed) {
            return r;
        }
        let r = take_method(input, at, array_as_slice(&head), HttpRequestMethod::Head);
        if !matches!(r, Step::Failed) {
            return r;
        }
        let r = take_method(input, at, array_as_slice(&put), HttpRequestMethod::Put);
        if !matches!(r, Step::Failed) {
            return r;
        }
        let r = take_method(input, at, array_as_slice(&delete), HttpRequestMethod::Delete);
        if !matches!(r, Step::Failed) {
            return r;
        }
        let r = take_method(input, at, array_as_slice(&trace), HttpRequestMethod::Trace);
        if !matches!(r, Step::Failed) {
            return r;
        }
        let r = take_method(input, at, array_as_slice(&options), HttpRequestMethod::Options);
        if !matches!(r, Step::Failed) {
            return r;
        }
        let r = take_method(input, at, array_as_slice(&connect), HttpRequestMethod::Connect);
        if !matches!(r, Step::Failed) {
            return r;
        }
        take_method(input, at, array_as_slice(&patch), HttpRequestMethod::Patch)
    }
}

impl HttpVersion {
    /// Reads a version at `at`: two decimal numbers with a dot between
    /// them.
    pub fn parse(input: &[u8], at: usize) -> (r: Step<HttpVersion>)
        requires
            at <= input@.len(),
        ensures
            r@ == version_at(input@, at as int),
            r matches Step::Done { next, .. } ==> next <= input@.len(),
    {
        let dot: [u8; 1] = [46];
        proof {
            assert(dot@ =~= version_dot());
        }
        let (after_major, major) = match take_number(input, at, 255) {
            Step::Done { next, value } => (next, value),
            Step::Incomplete(needed) => {
                return Step::Incomplete(needed);
            },
            Step::Failed => {
                return Step::Failed;
            },
        };
        let after_dot: usize = match tag(input, after_major, array_as_slice(&dot)) {
            Step::Done { next, value: _ } => next,
            Step::Incomplete(needed) => {
                return Step::Incomplete(needed);
            },
            Step::Failed => {
                return Step::Failed;
            },
        };
        match take_number(input, after_dot, 255) {
            Step::Done { next, value } => Step::Done {
                next,
                value: HttpVersion { major: major as u8, minor: value as u8 },
            },
            Step::Incomplete(needed) => Step::Incomplete(needed),
            Step::Failed => Step::Failed,
        }
    }
}

/// Reads a status code at `at`.
fn take_status(input: &[u8], at: usize) -> (r: Step<u16>)
    requires
        at <= input@.len(),
    ensures
        r@ == status_at(input@, at as int),
        r matches Step::Done { next, .. } ==> next <= input@.len(),
{
    let end: usize = match take_until(input, at, 32) {
        Step::Done { next, value: _ } => next,
        Step::Incomplete(needed) => {
            return Step::Incomplete(needed);
        },
        Step::Failed => {
            return Step::Failed;
        },
    };
    match take_number(input, at, 65535) {
        Step::Done { next, value } => if next == end {
            Step::Done { next, value }
        } else {
            Step::Failed
        },
        _ => Step::Failed,
    }
}

impl HttpHeader {
    /// The header field with the given name and value.
    pub fn from_tuple(tuple: (&str, &str)) -> (r: HttpHeader)
        ensures
            r@.key == tuple.0@,
            r@.value == tuple.1@,
    {
        HttpHeader { key: tuple.0.to_owned(), value: tuple.1.to_owned() }
    }

    /// Reads one header line at `at`.
    pub fn parse_line(input: &[u8], at: usize) -> (r: Step<HttpHeader>)
        requires
            at <= input@.len(),
        ensures
            r@ == header_at(input@, at as int),
            r matches Step::Done { next, .. } ==> at < next <= input@.len(),
    {
        let separator: [u8; 2] = [58, 32];
        proof {
            assert(separator@ =~= field_separator());
        }
        let start: usize = skip_whitespace(input, at);
        let (colon, key) = match take_text_until(input, start, 58) {
            Step::Done { next, value } => (next, value),
            Step::Incomplete(needed) => {
                return Step::Incomplete(needed);
            },
            Step::Failed => {
                return Step::Failed;
            },
        };
        let after: usize = match tag(input, colon, array_as_slice(&separator)) {
            Step::Done { next, value: _ } => next,
            Step::Incomplete(needed) => {
                return Step::Incomplete(needed);
            },
            Step::Failed => {
                return Step::Failed;
            },
        };
        match take_text_until(input, after, 13) {
            Step::Done { next, value } => Step::Done {
                next,
                value: Self::from_tuple((key.as_str(), value.as_str())),
            },
            Step::Incomplete(needed) => Step::Incomplete(needed),
            Step::Failed => Step::Failed,
        }
    }

    /// Reads the header block at `at`: header lines up to and including the
    /// blank line behind the last of them.
    pub fn parse(input: &[u8], at: usize) -> (r: Step<Vec<HttpHeader>>)
        requires
            at <= input@.len(),
        ensures
            headers_scan(r) == headers_at(input@, at as int),
            r matches Step::Done { next, .. } ==> next <= input@.len(),
    {
        let end: [u8; 4] = [13, 10, 13, 10];
        proof {
            assert(end@ =~= head_end());
        }
        let mut headers: Vec<HttpHeader> = Vec::new();
        let mut pos: usize = at;
        proof {
            assert(header_views(headers@) =~= Seq::<HttpHeaderView>::empty());
            let whole = headers_at(input@, at as int);
            assert(prepend(Seq::<HttpHeaderView>::empty(), whole) == whole) by {
                if let Scan::Done { next, value } = whole {
                    assert(Seq::<HttpHeaderView>::empty() + value =~= value);
                }
            }
        }
        loop
            invariant
                at <= pos <= input@.len(),
                end@ == head_end(),
                headers_at(input@, at as int) == prepend(
                    header_views(headers@),
                    headers_at(input@, pos as int),
                ),
            decreases input@.len() - pos,
        {
            match tag(input, pos, array_as_slice(&end)) {
                Step::Done { next, value: _ } => {
                    proof {
                        assert(header_views(headers@) + Seq::<HttpHeaderView>::empty()
                            =~= header_views(headers@));
                    }
                    return Step::Done { next, value: headers };
                },
                _ => {},
            }
            match Self::parse_line(input, pos) {
                Step::Done { next, value } => {
                    let ghost before = header_views(headers@);
                    let ghost line = value@;
                    headers.push(value);
                    proof {
                        assert(header_views(headers@) =~= before.push(line));
                        let rest = headers_at(input@, next as int);
                        if let Scan::Done { next: e, value: tail } = rest {
                            assert(before + (seq![line] + tail) =~= before.push(line) + tail);
                        }
                    }
                    pos = next;
                },
                Step::Incomplete(needed) => {
                    return Step::Incomplete(needed);
                },
                Step::Failed => {
                    return Step::Failed;
                },
            }
        }
    }
}

impl HttpRequest {
    /// Reads a request head from the start of `input`: method, path,
    /// `HTTP/` and version, then the header block.
    pub fn parse(input: &[u8]) -> (r: Step<HttpRequest>)
        ensures
            r@ == request_at(input@),
            r matches Step::Done { next, .. } ==> next <= input@.len(),
    {
        let word: [u8; 5] = [72, 84, 84, 80, 47];
        proof {
            assert(word@ =~= protocol_word());
        }
        let start: usize = skip_whitespace(input, 0);
        let (end1, request_method) = match HttpRequestMethod::parse(input, start) {
            Step::Done { next, value } => (next, value),
            Step::Incomplete(needed) => {
                return Step::Incomplete(needed);
            },
            Step::Failed => {
                return Step::Failed;
            },
        };
        let (end2, path) = match take_text_until(input, end1, 32) {
            Step::Done { next, value } => (next, value),
            Step::Incomplete(needed) => {
                return Step::Incomplete(needed);
            },
            Step::Failed => {
                return Step::Failed;
            },
        };
        let end3: usize = match tag(input, skip_whitespace(input, end2), array_as_slice(&word)) {
            Step::Done { next, value: _ } => next,
            Step::Incomplete(needed) => {
                return Step::Incomplete(needed);
            },
            Step::Failed => {
                return Step::Failed;
            },
        };
        let (end4, version) = match HttpVersion::parse(input, skip_whitespace(input, end3)) {
            Step::Done { next, value } => (next, value),
            Step::Incomplete(needed) => {
                return Step::Incomplete(needed);
            },
            Step::Failed => {
                return Step::Failed;
            },
        };
        match HttpHeader::parse(input, end4) {
            Step::Done { next, value } => Step::Done {
                next: skip_whitespace(input, next),
                value: HttpRequest { request_method, version, path, headers: value },
            },
            Step::Incomplete(needed) => Step::Incomplete(needed),
            Step::Failed => Step::Failed,
        }
    }
}

impl HttpResponse {
    /// Reads a response head from the start of `input`: `HTTP/` and
    /// version, status code, reason phrase, then the header block.
    pub fn parse(input: &[u8]) -> (r: Step<HttpResponse>)
        ensures
            r@ == response_at(input@),
            r matches Step::Done { next, .. } ==> next <= input@.len(),
    {
        let word: [u8; 5] = [72, 84, 84, 80, 47];
        let separator: [u8; 1] = [32];
        proof {
            assert(word@ =~= protocol_word());
            assert(separator@ =~= space());
        }
        let start: usize = skip_whitespace(input, 0);
        let end1: usize = match tag(input, start, array_as_slice(&word)) {
            Step::Done { next, value: _ } => next,
            Step::Incomplete(needed) => {
                return Step::Incomplete(needed);
            },
            Step::Failed => {
                return Step::Failed;
            },
        };
        let (end2, version) = match HttpVersion::parse(input, skip_whitespace(input, end1)) {
            Step::Done { next, value } => (next, value),
            Step::Incomplete(needed) => {
                return Step::Incomplete(needed);
            },
            Step::Failed => {
                return Step::Failed;
            },
        };
        let end3: usize = match tag(input, end2, array_as_slice(&separator)) {
            Step::Done { next, value: _ } => next,
            Step::Incomplete(needed) => {
                return Step::Incomplete(needed);
            },
            Step::Failed => {
                return Step::Failed;
            },
        };
        let (end4, code) = match take_status(input, skip_whitespace(input, end3)) {
            Step::Done { next, value } => (next, value),
            Step::Incomplete(needed) => {
                return Step::Incomplete(needed);
            },
            Step::Failed => {
                return Step::Failed;
            },
        };
        let (end5, reason) = match take_text_until(input, skip_whitespace(input, end4), 13) {
            Step::Done { next, value } => (next, value),
            Step::Incomplete(needed) => {
                return Step::Incomplete(needed);
            },
            Step::Failed => {
                return Step::Failed;
            },
        };
        match HttpHeader::parse(input, end5) {
            Step::Done { next, value } => Step::Done {
                next: skip_whitespace(input, next),
                value: HttpResponse { version, code, reason, headers: value },
            },
            Step::Incomplete(needed) => Step::Incomplete(needed),
            Step::Failed => Step::Failed,
        }
    }
}

impl HttpPacket {
    /// Reads a plain text head from the start of `input`: a request, or
    /// else a response.
    pub fn parse_plain(input: &[u8]) -> (r: Step<HttpPacket>)
        ensures
            r@ == plain_at(input@),
            r matches Step::Done { next, .. } ==> next <= input@.len(),
    {
        match HttpRequest::parse(input) {
            Step::Done { next, value } => Step::Done { next, value: HttpPacket::Request(value) },
            Step::Incomplete(needed) => Step::Incomplete(needed),
            Step::Failed => match HttpResponse::parse(input) {
                Step::Done { next, value } => Step::Done {
                    next,
                    value: HttpPacket::Response(value),
                },
                Step::Incomplete(needed) => Step::Incomplete(needed),
                Step::Failed => Step::Failed,
            },
        }
    }

    /// Gives the marker for encrypted traffic where the last two ancestors
    /// are a TCP header and then a TLS record header, and source or
    /// destination port of the TCP header is 443. No octet of the input is
    /// read.
    pub fn parse_encrypted(input: &[u8], ancestors: Option<&Vec<Layer>>) -> (r: Step<HttpPacket>)
        ensures
            r@ == encrypted_at(ancestors_view(ancestors)),
    {
        match ancestors {
            Some(chain) => {
                let n: usize = chain.len();
                if n < 2 {
                    return Step::Failed;
                }
                match (&chain[n - 1], &chain[n - 2]) {
                    (Layer::Tls(_), Layer::Tcp(tcp)) => {
                        if tcp.header.source_port == HTTPS_PORT || tcp.header.dest_port
                            == HTTPS_PORT {
                            Step::Done { next: 0, value: HttpPacket::Any }
                        } else {
                            Step::Failed
                        }
                    },
                    _ => Step::Failed,
                }
            },
            None => Step::Failed,
        }
    }
}

impl HttpParser {
    /// Tests whether the plain text grammar may be tried: the chain ends in
    /// a TCP header, or there is no chain.
    pub fn accepts_plain(ancestors: Option<&Vec<Layer>>) -> (r: bool)
        ensures
            r == http_plain_accepts(ancestors_view(ancestors)),
    {
        match ancestors {
            None => true,
            Some(chain) => {
                let n: usize = chain.len();
                if n == 0 {
                    false
                } else {
                    match &chain[n - 1] {
                        Layer::Tcp(_) => true,
                        _ => false,
                    }
                }
            },
        }
    }

    /// Decodes an HTTP head from the start of `input`, or tells from the
    /// ancestors that the traffic is HTTP inside TLS.
    pub fn parse(&mut self, input: &[u8], ancestors: Option<&Vec<Layer>>) -> (r: Outcome)
        ensures
            r@ == http_parse(input@, ancestors_view(ancestors)),
    {
        let plain_allowed: bool = Self::accepts_plain(ancestors);
        if plain_allowed {
            match HttpPacket::parse_plain(input) {
                Step::Done { next, value } => {
                    return Outcome::Decoded { consumed: next, layer: Layer::Http(value) };
                },
                Step::Incomplete(needed) => {
                    return Outcome::Incomplete(needed);
                },
                Step::Failed => {},
            }
        }
        match HttpPacket::parse_encrypted(input, ancestors) {
            Step::Done { next, value } => Outcome::Decoded {
                consumed: next,
                layer: Layer::Http(value),
            },
            _ => if plain_allowed {
                Outcome::Rejected { reason: RejectReason::Grammar, offset: 0 }
            } else {
                Outcome::Rejected { reason: RejectReason::Ancestor, offset: 0 }
            },
        }
    }
}

impl HttpParser {
    /// The short name of the protocol, for diagnostics.
    pub fn to_string(&self) -> (r: String)
        ensures
            r@ == "HTTP"@,
    {
        "HTTP".to_owned()
    }
}

} // verus!
