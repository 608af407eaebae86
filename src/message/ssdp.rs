//! An SSDP message: its type and its header lines, read from a datagram.

use vstd::prelude::*;
use vstd::string::*;

use hyper::buffer::BufReader;
use hyper::header::Headers;
use hyper::http::h1;

use crate::error::{SSDPError, SSDPErrorView};
use crate::header::{ascii_lower, HeaderMut, HeaderRef, SSDPHeader};
use crate::message::MessageType;
use crate::receiver::FromRawSSDP;

verus! {

#[verifier::external_type_specification]
#[verifier::external_body]
pub struct ExHeaders(hyper::header::Headers);

/// The header lines that a hyper `Headers` map holds, by ASCII-lowercased name.
pub uninterp spec fn header_lines(h: Headers) -> Map<Seq<char>, Seq<Seq<u8>>>;

/// A map without header lines.
pub open spec fn no_lines() -> Map<Seq<char>, Seq<Seq<u8>>> {
    Map::empty()
}

/// Relies on hyper's `Headers::new`: the map starts empty.
#[verifier::external_body]
fn headers_new() -> (r: Headers)
    ensures
        header_lines(r) == no_lines(),
{
    Headers::new()
}

/// Relies on hyper's `Headers::get_raw`: the lines stored under a name, found
/// without regard to ASCII case.
#[verifier::external_body]
fn headers_get_raw<'a>(h: &'a Headers, name: &str) -> (r: Option<&'a [Vec<u8>]>)
    ensures
        match r {
            Some(v) => header_lines(*h).contains_key(ascii_lower(name@)) && v.deep_view()
                == header_lines(*h)[ascii_lower(name@)],
            None => !header_lines(*h).contains_key(ascii_lower(name@)),
        },
{
    h.get_raw(name)
}

/// Relies on hyper's `Headers::set_raw`: the lines replace any stored under
/// the same name.
#[verifier::external_body]
fn headers_set_raw(h: &mut Headers, name: String, value: Vec<Vec<u8>>)
    ensures
        header_lines(*final(h)) == header_lines(*old(h)).insert(
            ascii_lower(name@),
            value.deep_view(),
        ),
{
    h.set_raw(name, value)
}

/// The first position at or after `from` that holds `c`, or the length.
pub open spec fn index_from(b: Seq<u8>, from: int, c: u8) -> int
    decreases b.len() - from,
{
    if from >= b.len() {
        b.len() as int
    } else if b[from] == c {
        from
    } else {
        index_from(b, from + 1, c)
    }
}

proof fn lemma_index_from_bounds(b: Seq<u8>, from: int, c: u8)
    requires
        0 <= from <= b.len(),
    ensures
        from <= index_from(b, from, c) <= b.len(),
    decreases b.len() - from,
{
    if from < b.len() && b[from] != c {
        lemma_index_from_bounds(b, from + 1, c);
    }
}

fn find_from(b: &[u8], from: usize, c: u8) -> (r: usize)
    requires
        from <= b@.len(),
    ensures
        r == index_from(b@, from as int, c),
{
    let mut i = from;
    while i < b.len() && b[i] != c
        invariant
            from <= i <= b@.len(),
            index_from(b@, i as int, c) == index_from(b@, from as int, c),
        decreases b@.len() - i,
    {
        i = i + 1;
    }
    i
}

/// The request target of a request line: the bytes between its first space
/// and the next.
pub open spec fn request_target(b: Seq<u8>) -> Option<Seq<u8>> {
    let i = index_from(b, 0, 32);
    if i >= b.len() {
        None
    } else {
        Some(b.subrange(i + 1, index_from(b, i + 1, 32)))
    }
}

/// The request target is neither `*` nor holds a `/`: the authority form.
pub open spec fn names_authority(b: Seq<u8>) -> bool {
    match request_target(b) {
        Some(t) => t != seq![42u8] && !t.contains(47u8),
        None => false,
    }
}

fn target_names_authority(b: &[u8]) -> (r: bool)
    ensures
        r == names_authority(b@),
{
    let i = find_from(b, 0, 32);
    proof {
        lemma_index_from_bounds(b@, 0, 32);
    }
    if i >= b.len() {
        return false;
    }
    let j = find_from(b, i + 1, 32);
    proof {
        lemma_index_from_bounds(b@, i + 1, 32);
    }
    let ghost t = b@.subrange(i + 1, j as int);
    assert(request_target(b@) == Some(t));
    if j - i == 2 && b[i + 1] == 42u8 {
        assert(t =~= seq![42u8]);
        return false;
    }
    let mut k = i + 1;
    while k < j
        invariant
            i + 1 <= k <= j <= b@.len(),
            t == b@.subrange(i + 1, j as int),
            request_target(b@) == Some(t),
            forall|m: int| i + 1 <= m < k ==> b@[m] != 47u8,
        decreases j - k,
    {
        if b[k] == 47u8 {
            assert(t[k - i - 1] == 47u8);
            assert(t.contains(47u8));
            return false;
        }
        k = k + 1;
    }
    assert(!t.contains(47u8)) by {
        if t.contains(47u8) {
            let m = choose|m: int| 0 <= m < t.len() && t[m] == 47u8;
            assert(b@[m + i + 1] == 47u8);
        }
    }
    assert(t != seq![42u8]) by {
        if t == seq![42u8] {
            assert(t.len() == 1 && t[0] == 42u8);
        }
    }
    true
}

/// The request line and headers that `b` begins with, as hyper reads them:
/// method, target and version as text, then the header lines.
pub uninterp spec fn request_head_of(b: Seq<u8>) -> Option<
    (Seq<char>, Seq<char>, Seq<char>, Map<Seq<char>, Seq<Seq<u8>>>),
>;

/// The status line and headers that `b` begins with, as hyper reads them:
/// status code and version, then the header lines.
pub uninterp spec fn response_head_of(b: Seq<u8>) -> Option<
    (u16, Seq<char>, Map<Seq<char>, Seq<Seq<u8>>>),
>;

/// Relies on hyper's `h1::parse_request`, which reads the head of a request.
/// Its target parser stops on a target in authority form (`todo!`), which
/// `requires` leaves out.
#[verifier::external_body]
fn parse_request_head(b: &[u8]) -> (r: Option<(String, String, String, Headers)>)
    requires
        !names_authority(b@),
    ensures
        match r {
            Some((m, t, v, h)) => request_head_of(b@) == Some((m@, t@, v@, header_lines(h))),
            None => request_head_of(b@) is None,
        },
{
    match h1::parse_request(&mut BufReader::new(b)) {
        Ok(p) => Some((p.subject.0.to_string(), p.subject.1.to_string(), p.version.to_string(), p.headers)),
        Err(_) => None,
    }
}

/// Relies on hyper's `h1::parse_response`, which reads the head of a response.
#[verifier::external_body]
fn parse_response_head(b: &[u8]) -> (r: Option<(u16, String, Headers)>)
    ensures
        match r {
            Some((c, v, h)) => response_head_of(b@) == Some((c, v@, header_lines(h))),
            None => response_head_of(b@) is None,
        },
{
    match h1::parse_response(&mut BufReader::new(b)) {
        Ok(p) => Some((p.subject.0, p.version.to_string(), p.headers)),
        Err(_) => None,
    }
}

pub open spec fn http11() -> Seq<char> {
    seq!['H', 'T', 'T', 'P', '/', '1', '.', '1']
}

pub open spec fn host_name() -> Seq<char> {
    seq!['H', 'o', 's', 't']
}

pub open spec fn notify_method() -> Seq<char> {
    seq!['N', 'O', 'T', 'I', 'F', 'Y']
}

pub open spec fn search_method() -> Seq<char> {
    seq!['M', '-', 'S', 'E', 'A', 'R', 'C', 'H']
}

/// The message, or the error, that a request head makes: version 1.1, a
/// `Host` header and the target `*` are required, and the method names the
/// message type.
pub open spec fn spec_from_request(
    head: (Seq<char>, Seq<char>, Seq<char>, Map<Seq<char>, Seq<Seq<u8>>>),
) -> Result<(MessageType, Map<Seq<char>, Seq<Seq<u8>>>), SSDPErrorView> {
    let (method, target, version, lines) = head;
    if version != http11() {
        Err(SSDPErrorView::InvalidHttpVersion)
    } else if !lines.contains_key(ascii_lower(host_name())) {
        Err(SSDPErrorView::MissingHeader(host_name()))
    } else if target != seq!['*'] {
        Err(SSDPErrorView::InvalidUri(target))
    } else if method == notify_method() {
        Ok((MessageType::Notify, lines))
    } else if method == search_method() {
        Ok((MessageType::Search, lines))
    } else {
        Err(SSDPErrorView::InvalidMethod(method))
    }
}

/// The message, or the error, that a response head makes: version 1.1 and
/// status 200 are required.
pub open spec fn spec_from_response(head: (u16, Seq<char>, Map<Seq<char>, Seq<Seq<u8>>>)) -> Result<
    (MessageType, Map<Seq<char>, Seq<Seq<u8>>>),
    SSDPErrorView,
> {
    let (code, version, lines) = head;
    if version != http11() {
        Err(SSDPErrorView::InvalidHttpVersion)
    } else if code != 200 {
        Err(SSDPErrorView::ResponseCode(code))
    } else {
        Ok((MessageType::Response, lines))
    }
}

/// The message that a datagram holds: a request if it reads as one, else a
/// response, else an error that holds the datagram. A request whose target is
/// in authority form is not read as a request.
pub open spec fn spec_parse_message(b: Seq<u8>) -> Result<
    (MessageType, Map<Seq<char>, Seq<Seq<u8>>>),
    SSDPErrorView,
> {
    let request = if names_authority(b) {
        None
    } else {
        request_head_of(b)
    };
    match request {
        Some(head) => spec_from_request(head),
        None => match response_head_of(b) {
            Some(head) => spec_from_response(head),
            None => Err(SSDPErrorView::InvalidHttp(b)),
        },
    }
}

/// Represents an SSDP method combined with both SSDP and HTTP headers.
#[derive(Debug)]
pub struct SSDPMessage {
    method: MessageType,
    headers: Headers,
}

impl View for SSDPMessage {
    type V = (MessageType, Map<Seq<char>, Seq<Seq<u8>>>);

    closed spec fn view(&self) -> (MessageType, Map<Seq<char>, Seq<Seq<u8>>>) {
        (self.method, header_lines(self.headers))
    }
}

pub open spec fn message_result_view(r: Result<SSDPMessage, SSDPError>) -> Result<
    (MessageType, Map<Seq<char>, Seq<Seq<u8>>>),
    SSDPErrorView,
> {
    match r {
        Ok(m) => Ok(m@),
        Err(e) => Err(e@),
    }
}

fn string_eq_literal(s: &String, lit: &str) -> (r: bool)
    ensures
        r == (s@ == lit@),
{
    *s == String::from_str(lit)
}

/// Validates that the message uses HTTP/1.1.
fn validate_http_version(version: &String) -> (r: Result<(), SSDPError>)
    ensures
        r is Ok <==> version@ == http11(),
        r matches Err(e) ==> e@ == SSDPErrorView::InvalidHttpVersion,
{
    proof {
        reveal_strlit("HTTP/1.1");
        assert("HTTP/1.1"@ =~= http11());
    }
    if string_eq_literal(version, "HTTP/1.1") {
        Ok(())
    } else {
        Err(SSDPError::InvalidHttpVersion)
    }
}

/// Validates that a `Host` header is present; the underlying HTTP reader does
/// not require one.
fn validate_http_host(headers: &Headers) -> (r: Result<(), SSDPError>)
    ensures
        r is Ok <==> header_lines(*headers).contains_key(ascii_lower(host_name())),
        r matches Err(e) ==> e@ == SSDPErrorView::MissingHeader(host_name()),
{
    proof {
        reveal_strlit("Host");
        assert("Host"@ =~= host_name());
    }
    match headers_get_raw(headers, "Host") {
        Some(_) => Ok(()),
        None => Err(SSDPError::MissingHeader("Host")),
    }
}

/// Validates that a response reports success.
fn validate_response_code(code: u16) -> (r: Result<(), SSDPError>)
    ensures
        r is Ok <==> code == 200,
        r matches Err(e) ==> e@ == SSDPErrorView::ResponseCode(code),
{
    if code != 200 {
        Err(SSDPError::ResponseCode(code))
    } else {
        Ok(())
    }
}

/// Builds a message from the pieces of a request head.
pub fn message_from_request(method: String, target: String, version: String, headers: Headers) -> (r:
    Result<SSDPMessage, SSDPError>)
    ensures
        message_result_view(r) == spec_from_request(
            (method@, target@, version@, header_lines(headers)),
        ),
{
    proof {
        reveal_strlit("*");
        reveal_strlit("NOTIFY");
        reveal_strlit("M-SEARCH");
        assert("*"@ =~= seq!['*']);
        assert("NOTIFY"@ =~= notify_method());
        assert("M-SEARCH"@ =~= search_method());
    }
    validate_http_version(&version)?;
    validate_http_host(&headers)?;
    if !string_eq_literal(&target, "*") {
        return Err(SSDPError::InvalidUri(target));
    }
    if string_eq_literal(&method, "NOTIFY") {
        Ok(SSDPMessage { method: MessageType::Notify, headers })
    } else if string_eq_literal(&method, "M-SEARCH") {
        Ok(SSDPMessage { method: MessageType::Search, headers })
    } else {
        Err(SSDPError::InvalidMethod(method))
    }
}

/// Builds a message from the pieces of a response head.
pub fn message_from_response(code: u16, version: String, headers: Headers) -> (r: Result<
    SSDPMessage,
    SSDPError,
>)
    ensures
        message_result_view(r) == spec_from_response((code, version@, header_lines(headers))),
{
    validate_http_version(&version)?;
    validate_response_code(code)?;
    Ok(SSDPMessage { method: MessageType::Response, headers })
}

impl SSDPMessage {
    /// Construct a new SSDPMessage with no headers.
    pub fn new(message_type: MessageType) -> (r: SSDPMessage)
        ensures
            r@ == (message_type, no_lines()),
    {
        SSDPMessage { method: message_type, headers: headers_new() }
    }

    /// Get the type of this message.
    pub fn message_type(&self) -> (r: MessageType)
        ensures
            r == self@.0,
    {
        self.method
    }

    /// The header lines, for writing the message out.
    pub fn headers(&self) -> (r: &Headers)
        ensures
            header_lines(*r) == self@.1,
    {
        &self.headers
    }

    /// The header lines, taken out of the message.
    pub(crate) fn into_headers(self) -> (r: Headers)
        ensures
            header_lines(r) == self@.1,
    {
        self.headers
    }
}

impl FromRawSSDP for SSDPMessage {
    open spec fn spec_from_raw(b: Seq<u8>) -> Result<Self::V, SSDPErrorView> {
        spec_parse_message(b)
    }

    /// Reads a message from the bytes of a datagram.
    fn raw_ssdp(bytes: &[u8]) -> (r: Result<SSDPMessage, SSDPError>) {
        if !target_names_authority(bytes) {
            if let Some((method, target, version, headers)) = parse_request_head(bytes) {
                return message_from_request(method, target, version, headers);
            }
        }
        match parse_response_head(bytes) {
            Some((code, version, headers)) => message_from_response(code, version, headers),
            None => Err(SSDPError::InvalidHttp(vstd::slice::slice_to_vec(bytes))),
        }
    }
}

/// The typed value of a header in the map: present only when the header is
/// there and its lines parse.
pub(crate) fn typed_get<H: SSDPHeader>(h: &Headers) -> (r: Option<H>)
    ensures
        match r {
            Some(v) => header_lines(*h).contains_key(ascii_lower(H::spec_name())) && H::spec_parse(
                header_lines(*h)[ascii_lower(H::spec_name())],
            ) == Some(v@),
            None => !header_lines(*h).contains_key(ascii_lower(H::spec_name())) || H::spec_parse(
                header_lines(*h)[ascii_lower(H::spec_name())],
            ) is None,
        },
{
    match headers_get_raw(h, H::header_name()) {
        Some(raw) => match H::parse_header(raw) {
            Ok(v) => Some(v),
            Err(_) => None,
        },
        None => None,
    }
}

/// Sets a header in the map to the line that formats the value.
pub(crate) fn typed_set<H: SSDPHeader>(h: &mut Headers, value: H)
    ensures
        header_lines(*final(h)) == header_lines(*old(h)).insert(
            ascii_lower(H::spec_name()),
            seq![H::spec_format(value@)],
        ),
{
    let line = value.fmt_header();
    let ghost line_view = line@;
    assert(line.deep_view() =~= line_view);
    let mut lines: Vec<Vec<u8>> = Vec::new();
    lines.push(line);
    assert(lines.deep_view().len() == 1);
    assert(lines.deep_view()[0] == line_view);
    assert(lines.deep_view() =~= seq![H::spec_format(value@)]);
    headers_set_raw(h, String::from_str(H::header_name()), lines)
}

/// The raw lines of a header in the map.
pub(crate) fn raw_get<'a>(h: &'a Headers, name: &str) -> (r: Option<&'a [Vec<u8>]>)
    ensures
        match r {
            Some(v) => header_lines(*h).contains_key(ascii_lower(name@)) && v.deep_view()
                == header_lines(*h)[ascii_lower(name@)],
            None => !header_lines(*h).contains_key(ascii_lower(name@)),
        },
{
    headers_get_raw(h, name)
}

/// Sets the raw lines of a header in the map.
pub(crate) fn raw_set(h: &mut Headers, name: &str, value: Vec<Vec<u8>>)
    ensures
        header_lines(*final(h)) == header_lines(*old(h)).insert(
            ascii_lower(name@),
            value.deep_view(),
        ),
{
    headers_set_raw(h, String::from_str(name), value)
}

impl HeaderRef for SSDPMessage {
    open spec fn header_map(&self) -> Map<Seq<char>, Seq<Seq<u8>>> {
        self@.1
    }

    fn get<H: SSDPHeader>(&self) -> (r: Option<H>) {
        typed_get(&self.headers)
    }

    fn get_raw(&self, name: &str) -> (r: Option<&[Vec<u8>]>) {
        raw_get(&self.headers, name)
    }
}

impl HeaderMut for SSDPMessage {
    fn set<H: SSDPHeader>(&mut self, value: H) {
        typed_set(&mut self.headers, value)
    }

    fn set_raw(&mut self, name: &str, value: Vec<Vec<u8>>) {
        raw_set(&mut self.headers, name, value)
    }
}

} // verus!
