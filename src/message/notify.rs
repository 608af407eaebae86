use vstd::prelude::*;

use crate::error::{SSDPError, SSDPErrorView};
use crate::header::{HeaderMut, HeaderRef, SSDPHeader};
use hyper::header::Headers;

use crate::message::ssdp::{
    header_lines, no_lines, raw_get, raw_set, spec_parse_message, typed_get, typed_set, SSDPMessage,
};
use crate::message::MessageType;
use crate::receiver::FromRawSSDP;

verus! {

/// Notify message that can be sent via multicast to devices on the network.
pub struct NotifyMessage {
    headers: Headers,
}

impl View for NotifyMessage {
    type V = Map<Seq<char>, Seq<Seq<u8>>>;

    closed spec fn view(&self) -> Map<Seq<char>, Seq<Seq<u8>>> {
        header_lines(self.headers)
    }
}

impl NotifyMessage {
    /// Construct a new NotifyMessage with no headers.
    pub fn new() -> (r: NotifyMessage)
        ensures
            r@ == no_lines(),
    {
        NotifyMessage { headers: SSDPMessage::new(MessageType::Notify).into_headers() }
    }

    /// The type of message this is.
    pub fn message_type(&self) -> (r: MessageType)
        ensures
            r == MessageType::Notify,
    {
        MessageType::Notify
    }

    /// The header lines, for writing the message out.
    pub fn headers(&self) -> (r: &Headers)
        ensures
            header_lines(*r) == self@,
    {
        &self.headers
    }
}

impl FromRawSSDP for NotifyMessage {
    /// A datagram that reads as a Notify message.
    open spec fn spec_from_raw(b: Seq<u8>) -> Result<Map<Seq<char>, Seq<Seq<u8>>>, SSDPErrorView> {
        match spec_parse_message(b) {
            Ok((t, lines)) => if t == MessageType::Notify {
                Ok(lines)
            } else {
                Err(SSDPErrorView::UnexpectedMessage)
            },
            Err(e) => Err(e),
        }
    }

    fn raw_ssdp(bytes: &[u8]) -> (r: Result<NotifyMessage, SSDPError>) {
        let message = SSDPMessage::raw_ssdp(bytes)?;
        match message.message_type() {
            MessageType::Notify => Ok(NotifyMessage { headers: message.into_headers() }),
            _ => Err(SSDPError::UnexpectedMessage),
        }
    }
}

impl HeaderRef for NotifyMessage {
    open spec fn header_map(&self) -> Map<Seq<char>, Seq<Seq<u8>>> {
        self@
    }

    fn get<H: SSDPHeader>(&self) -> (r: Option<H>) {
        typed_get(&self.headers)
    }

    fn get_raw(&self, name: &str) -> (r: Option<&[Vec<u8>]>) {
        raw_get(&self.headers, name)
    }
}

impl HeaderMut for NotifyMessage {
    fn set<H: SSDPHeader>(&mut self, value: H) {
        typed_set(&mut self.headers, value)
    }

    fn set_raw(&mut self, name: &str, value: Vec<Vec<u8>>) {
        raw_set(&mut self.headers, name, value)
    }
}

/// Notify listener that can listen to notify messages sent within the network.
pub struct NotifyListener;

} // verus!
