//! Messaging primitives for discovering devices and services.

use vstd::prelude::*;
use vstd::string::*;

use crate::net::IpVersionMode;

mod notify;
mod search;
mod ssdp;

pub use self::notify::{NotifyListener, NotifyMessage};
pub use self::search::{
    multicast_timeout, opt_unicast_timeout, SearchListener, SearchRequest, SearchResponse,
};
pub use self::ssdp::{
    header_lines, message_from_request, message_from_response, spec_parse_message, SSDPMessage,
};

pub use crate::header::{HeaderMut, HeaderRef};

verus! {

/// Enumerates different types of SSDP messages.
#[derive(Copy, Clone, Hash, Eq, PartialEq, Debug)]
pub enum MessageType {
    /// A notify message.
    Notify,
    /// A search message.
    Search,
    /// A response to a search message.
    Response,
}

impl MessageType {
    /// The request method that carries a message of this type; a response
    /// has none.
    pub fn method_name(&self) -> (r: Option<&'static str>)
        ensures
            match *self {
                MessageType::Notify => r matches Some(m) && m@ == ssdp::notify_method(),
                MessageType::Search => r matches Some(m) && m@ == ssdp::search_method(),
                MessageType::Response => r is None,
            },
    {
        proof {
            reveal_strlit("NOTIFY");
            reveal_strlit("M-SEARCH");
            assert("NOTIFY"@ =~= ssdp::notify_method());
            assert("M-SEARCH"@ =~= ssdp::search_method());
        }
        match self {
            MessageType::Notify => Some("NOTIFY"),
            MessageType::Search => Some("M-SEARCH"),
            MessageType::Response => None,
        }
    }
}

/// IPv4 multicast group of SSDP.
pub const UPNP_MULTICAST_IPV4_ADDR: &'static str = "239.255.255.250";

/// IPv6 link-local multicast group of SSDP.
pub const UPNP_MULTICAST_IPV6_LINK_LOCAL_ADDR: &'static str = "FF02::C";

/// Port of the SSDP multicast groups.
pub const UPNP_MULTICAST_PORT: u16 = 1900;

/// Default TTL for multicast.
pub const UPNP_MULTICAST_TTL: u32 = 2;

/// Where and how messages are multicast.
#[derive(Clone, Debug)]
pub struct Config {
    pub ipv4_addr: String,
    pub ipv6_addr: String,
    pub port: u16,
    pub ttl: u32,
    pub mode: IpVersionMode,
}

impl Config {
    /// The SSDP groups, port 1900, a TTL of 2, and both IP versions.
    pub open spec fn is_default(&self) -> bool {
        &&& self.ipv4_addr@ == "239.255.255.250"@
        &&& self.ipv6_addr@ == "FF02::C"@
        &&& self.port == UPNP_MULTICAST_PORT
        &&& self.ttl == UPNP_MULTICAST_TTL
        &&& self.mode == IpVersionMode::Any
    }

    pub fn new() -> (r: Self)
        ensures
            r.is_default(),
    {
        Config {
            ipv4_addr: String::from_str("239.255.255.250"),
            ipv6_addr: String::from_str("FF02::C"),
            port: UPNP_MULTICAST_PORT,
            ttl: UPNP_MULTICAST_TTL,
            mode: IpVersionMode::Any,
        }
    }

    pub fn set_ipv4_addr(self, value: &str) -> (r: Self)
        ensures
            r.ipv4_addr@ == value@,
            r.ipv6_addr@ == self.ipv6_addr@,
            r.port == self.port && r.ttl == self.ttl && r.mode == self.mode,
    {
        Config { ipv4_addr: String::from_str(value), ..self }
    }

    pub fn set_ipv6_addr(self, value: &str) -> (r: Self)
        ensures
            r.ipv6_addr@ == value@,
            r.ipv4_addr@ == self.ipv4_addr@,
            r.port == self.port && r.ttl == self.ttl && r.mode == self.mode,
    {
        Config { ipv6_addr: String::from_str(value), ..self }
    }

    pub fn set_port(self, value: u16) -> (r: Self)
        ensures
            r.port == value,
            r.ipv4_addr@ == self.ipv4_addr@ && r.ipv6_addr@ == self.ipv6_addr@,
            r.ttl == self.ttl && r.mode == self.mode,
    {
        Config { port: value, ..self }
    }

    pub fn set_ttl(self, value: u32) -> (r: Self)
        ensures
            r.ttl == value,
            r.ipv4_addr@ == self.ipv4_addr@ && r.ipv6_addr@ == self.ipv6_addr@,
            r.port == self.port && r.mode == self.mode,
    {
        Config { ttl: value, ..self }
    }

    pub fn set_mode(self, value: IpVersionMode) -> (r: Self)
        ensures
            r.mode == value,
            r.ipv4_addr@ == self.ipv4_addr@ && r.ipv6_addr@ == self.ipv6_addr@,
            r.port == self.port && r.ttl == self.ttl,
    {
        Config { mode: value, ..self }
    }
}

impl Default for Config {
    fn default() -> (r: Self)
        ensures
            r.is_default(),
    {
        Config::new()
    }
}

/// A message sent on every interface succeeds when one send succeeds; when
/// every send failed, the last failure is reported.
pub fn fan_out_succeeded(successes: usize, failures: usize) -> (r: bool)
    ensures
        r == (successes > 0 || failures == 0),
{
    !(successes == 0 && failures > 0)
}

} // verus!
