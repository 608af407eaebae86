use vstd::prelude::*;

use crate::error::{SSDPError, SSDPErrorView};
use crate::header::{HeaderMut, HeaderRef, SSDPHeader, MX};
use hyper::header::Headers;

use crate::message::ssdp::{
    header_lines, no_lines, raw_get, raw_set, spec_parse_message, typed_get, typed_set, SSDPMessage,
};
use crate::message::MessageType;
use crate::receiver::FromRawSSDP;

verus! {

/// Overhead to add to device response times to account for transport time.
pub const NETWORK_TIMEOUT_OVERHEAD: u8 = 1;

/// Devices are required to respond within 1 second of receiving unicast message.
pub const DEFAULT_UNICAST_TIMEOUT: u8 = 2;

/// The seconds to wait for responses to a multicast search: the MX bound plus
/// the transport overhead. A multicast search requires an MX header.
pub fn multicast_timeout(mx: Option<&MX>) -> (r: Result<u64, SSDPError>)
    ensures
        match mx {
            Some(m) => r matches Ok(t) && t == m.0 + NETWORK_TIMEOUT_OVERHEAD,
            None => r matches Err(e) && e@ == SSDPErrorView::MissingHeader(seq!['M', 'X']),
        },
{
    match mx {
        Some(m) => Ok(m.0 as u64 + NETWORK_TIMEOUT_OVERHEAD as u64),
        None => {
            proof {
                reveal_strlit("MX");
                assert("MX"@ =~= seq!['M', 'X']);
            }
            Err(SSDPError::MissingHeader("MX"))
        },
    }
}

/// The seconds to wait for responses to a unicast search: the MX bound plus
/// the transport overhead, or the default without an MX header.
pub fn opt_unicast_timeout(mx: Option<&MX>) -> (r: Option<u64>)
    ensures
        r matches Some(t) && t == match mx {
            Some(m) => m.0 + NETWORK_TIMEOUT_OVERHEAD,
            None => DEFAULT_UNICAST_TIMEOUT as int,
        },
{
    match mx {
        Some(m) => Some(m.0 as u64 + NETWORK_TIMEOUT_OVERHEAD as u64),
        None => Some(DEFAULT_UNICAST_TIMEOUT as u64),
    }
}

/// Search request that can be sent via unicast or multicast to devices on the network.
pub struct SearchRequest {
    headers: Headers,
}

impl View for SearchRequest {
    type V = Map<Seq<char>, Seq<Seq<u8>>>;

    closed spec fn view(&self) -> Map<Seq<char>, Seq<Seq<u8>>> {
        header_lines(self.headers)
    }
}

impl SearchRequest {
    /// Construct a new SearchRequest with no headers.
    pub fn new() -> (r: SearchRequest)
        ensures
            r@ == no_lines(),
    {
        SearchRequest { headers: SSDPMessage::new(MessageType::Search).into_headers() }
    }

    /// The type of message this is.
    pub fn message_type(&self) -> (r: MessageType)
        ensures
            r == MessageType::Search,
    {
        MessageType::Search
    }

    /// The header lines, for writing the message out.
    pub fn headers(&self) -> (r: &Headers)
        ensures
            header_lines(*r) == self@,
    {
        &self.headers
    }
}

impl FromRawSSDP for SearchRequest {
    /// A datagram that reads as a Search message.
    open spec fn spec_from_raw(b: Seq<u8>) -> Result<Map<Seq<char>, Seq<Seq<u8>>>, SSDPErrorView> {
        match spec_parse_message(b) {
            Ok((t, lines)) => if t == MessageType::Search {
                Ok(lines)
            } else {
                Err(SSDPErrorView::UnexpectedMessage)
            },
            Err(e) => Err(e),
        }
    }

    fn raw_ssdp(bytes: &[u8]) -> (r: Result<SearchRequest, SSDPError>) {
        let message = SSDPMessage::raw_ssdp(bytes)?;
        match message.message_type() {
            MessageType::Search => Ok(SearchRequest { headers: message.into_headers() }),
            _ => Err(SSDPError::UnexpectedMessage),
        }
    }
}

impl HeaderRef for SearchRequest {
    open spec fn header_map(&self) -> Map<Seq<char>, Seq<Seq<u8>>> {
        self@
    }

    fn get<H: SSDPHeader>(&self) -> (r: Option<H>) {
        typed_get(&self.headers)
    }

    fn get_raw(&self, name: &str) -> (r: Option<&[Vec<u8>]>) {
        raw_get(&self.headers, name)
    }
}

impl HeaderMut for SearchRequest {
    fn set<H: SSDPHeader>(&mut self, value: H) {
        typed_set(&mut self.headers, value)
    }

    fn set_raw(&mut self, name: &str, value: Vec<Vec<u8>>) {
        raw_set(&mut self.headers, name, value)
    }
}

/// Search response that can be received or sent via unicast to devices on the network.
pub struct SearchResponse {
    headers: Headers,
}

impl View for SearchResponse {
    type V = Map<Seq<char>, Seq<Seq<u8>>>;

    closed spec fn view(&self) -> Map<Seq<char>, Seq<Seq<u8>>> {
        header_lines(self.headers)
    }
}

impl SearchResponse {
    /// Construct a new SearchResponse with no headers.
    pub fn new() -> (r: SearchResponse)
        ensures
            r@ == no_lines(),
    {
        SearchResponse { headers: SSDPMessage::new(MessageType::Response).into_headers() }
    }

    /// The type of message this is.
    pub fn message_type(&self) -> (r: MessageType)
        ensures
            r == MessageType::Response,
    {
        MessageType::Response
    }

    /// The header lines, for writing the message out.
    pub fn headers(&self) -> (r: &Headers)
        ensures
            header_lines(*r) == self@,
    {
        &self.headers
    }
}

impl FromRawSSDP for SearchResponse {
    /// A datagram that reads as a Response message.
    open spec fn spec_from_raw(b: Seq<u8>) -> Result<Map<Seq<char>, Seq<Seq<u8>>>, SSDPErrorView> {
        match spec_parse_message(b) {
            Ok((t, lines)) => if t == MessageType::Response {
                Ok(lines)
            } else {
                Err(SSDPErrorView::UnexpectedMessage)
            },
            Err(e) => Err(e),
        }
    }

    fn raw_ssdp(bytes: &[u8]) -> (r: Result<SearchResponse, SSDPError>) {
        let message = SSDPMessage::raw_ssdp(bytes)?;
        match message.message_type() {
            MessageType::Response => Ok(SearchResponse { headers: message.into_headers() }),
            _ => Err(SSDPError::UnexpectedMessage),
        }
    }
}

impl HeaderRef for SearchResponse {
    open spec fn header_map(&self) -> Map<Seq<char>, Seq<Seq<u8>>> {
        self@
    }

    fn get<H: SSDPHeader>(&self) -> (r: Option<H>) {
        typed_get(&self.headers)
    }

    fn get_raw(&self, name: &str) -> (r: Option<&[Vec<u8>]>) {
        raw_get(&self.headers, name)
    }
}

impl HeaderMut for SearchResponse {
    fn set<H: SSDPHeader>(&mut self, value: H) {
        typed_set(&mut self.headers, value)
    }

    fn set_raw(&mut self, name: &str, value: Vec<Vec<u8>>) {
        raw_set(&mut self.headers, name, value)
    }
}

/// Search listener that can listen for search messages sent within the network.
pub struct SearchListener;

} // verus!
