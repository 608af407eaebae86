//! Choices made at the network edge: which interfaces take part, and how a
//! request written for a stream is adapted to a datagram.

use vstd::prelude::*;

verus! {

/// The IP versions whose interfaces take part in sending and listening.
#[derive(Copy, Clone, PartialEq, Eq, Debug)]
pub enum IpVersionMode {
    V4Only,
    V6Only,
    Any,
}

impl IpVersionMode {
    /// The mode that reaches a destination of the given family.
    pub fn from_family(is_ipv4: bool) -> (r: IpVersionMode)
        ensures
            r == (if is_ipv4 {
                IpVersionMode::V4Only
            } else {
                IpVersionMode::V6Only
            }),
    {
        if is_ipv4 {
            IpVersionMode::V4Only
        } else {
            IpVersionMode::V6Only
        }
    }

    /// Whether an interface of the given family takes part under this mode.
    pub fn admits(&self, is_ipv4: bool) -> (r: bool)
        ensures
            r == match *self {
                IpVersionMode::V4Only => is_ipv4,
                IpVersionMode::V6Only => !is_ipv4,
                IpVersionMode::Any => true,
            },
    {
        match self {
            IpVersionMode::V4Only => is_ipv4,
            IpVersionMode::V6Only => !is_ipv4,
            IpVersionMode::Any => true,
        }
    }
}

/// An IP address, as its four octets or its eight 16-bit segments.
#[derive(Copy, Clone, PartialEq, Eq, Debug)]
pub enum IpAddress {
    V4([u8; 4]),
    V6([u16; 8]),
}

/// The scope of an IPv6 multicast address.
#[derive(Copy, Clone, PartialEq, Eq, Debug)]
pub enum Ipv6MulticastScope {
    InterfaceLocal,
    LinkLocal,
    RealmLocal,
    AdminLocal,
    SiteLocal,
    OrganizationLocal,
    Global,
}

pub open spec fn v4_is_loopback(o: Seq<u8>) -> bool {
    o[0] == 127
}

/// 10.0.0.0/8, 172.16.0.0/12 and 192.168.0.0/16.
pub open spec fn v4_is_private(o: Seq<u8>) -> bool {
    ||| o[0] == 10
    ||| o[0] == 172 && 16 <= o[1] <= 31
    ||| o[0] == 192 && o[1] == 168
}

/// 169.254.0.0/16.
pub open spec fn v4_is_link_local(o: Seq<u8>) -> bool {
    o[0] == 169 && o[1] == 254
}

pub open spec fn v4_is_broadcast(o: Seq<u8>) -> bool {
    o[0] == 255 && o[1] == 255 && o[2] == 255 && o[3] == 255
}

/// 192.0.2.0/24, 198.51.100.0/24 and 203.0.113.0/24.
pub open spec fn v4_is_documentation(o: Seq<u8>) -> bool {
    ||| o[0] == 192 && o[1] == 0 && o[2] == 2
    ||| o[0] == 198 && o[1] == 51 && o[2] == 100
    ||| o[0] == 203 && o[1] == 0 && o[2] == 113
}

/// 100.64.0.0/10.
pub open spec fn v4_is_shared(o: Seq<u8>) -> bool {
    o[0] == 100 && 64 <= o[1] <= 127
}

/// 192.0.0.0/24.
pub open spec fn v4_is_ietf_protocol_assignment(o: Seq<u8>) -> bool {
    o[0] == 192 && o[1] == 0 && o[2] == 0
}

/// 240.0.0.0/4, but for the broadcast address.
pub open spec fn v4_is_reserved(o: Seq<u8>) -> bool {
    o[0] >= 240 && !v4_is_broadcast(o)
}

/// 198.18.0.0/15.
pub open spec fn v4_is_benchmarking(o: Seq<u8>) -> bool {
    o[0] == 198 && (o[1] == 18 || o[1] == 19)
}

/// A globally routable IPv4 address. 192.0.0.9 and 192.0.0.10 are the only
/// global addresses in 192.0.0.0/24.
pub open spec fn v4_is_global(o: Seq<u8>) -> bool {
    if o[0] == 192 && o[1] == 0 && o[2] == 0 && (o[3] == 9 || o[3] == 10) {
        true
    } else {
        &&& !v4_is_private(o)
        &&& !v4_is_loopback(o)
        &&& !v4_is_link_local(o)
        &&& !v4_is_broadcast(o)
        &&& !v4_is_documentation(o)
        &&& !v4_is_shared(o)
        &&& !v4_is_ietf_protocol_assignment(o)
        &&& !v4_is_reserved(o)
        &&& !v4_is_benchmarking(o)
        &&& o[0] != 0
    }
}

/// ff00::/8.
pub open spec fn v6_is_multicast(s: Seq<u16>) -> bool {
    s[0] >= 0xff00
}

pub open spec fn v6_is_loopback(s: Seq<u16>) -> bool {
    &&& forall|i: int| 0 <= i < 7 ==> s[i] == 0
    &&& s[7] == 1
}

pub open spec fn v6_is_unspecified(s: Seq<u16>) -> bool {
    forall|i: int| 0 <= i < 8 ==> s[i] == 0
}

/// fe80::/10.
pub open spec fn v6_is_unicast_link_local(s: Seq<u16>) -> bool {
    0xfe80 <= s[0] <= 0xfebf
}

/// fc00::/7.
pub open spec fn v6_is_unique_local(s: Seq<u16>) -> bool {
    0xfc00 <= s[0] <= 0xfdff
}

/// 2001:db8::/32.
pub open spec fn v6_is_documentation(s: Seq<u16>) -> bool {
    s[0] == 0x2001 && s[1] == 0xdb8
}

/// The scope named by the low four bits of the first segment of a multicast
/// address.
pub open spec fn v6_multicast_scope(s: Seq<u16>) -> Option<Ipv6MulticastScope> {
    if !v6_is_multicast(s) {
        None
    } else {
        let f = s[0] % 16;
        if f == 1 {
            Some(Ipv6MulticastScope::InterfaceLocal)
        } else if f == 2 {
            Some(Ipv6MulticastScope::LinkLocal)
        } else if f == 3 {
            Some(Ipv6MulticastScope::RealmLocal)
        } else if f == 4 {
            Some(Ipv6MulticastScope::AdminLocal)
        } else if f == 5 {
            Some(Ipv6MulticastScope::SiteLocal)
        } else if f == 8 {
            Some(Ipv6MulticastScope::OrganizationLocal)
        } else if f == 14 {
            Some(Ipv6MulticastScope::Global)
        } else {
            None
        }
    }
}

pub open spec fn v6_is_unicast_global(s: Seq<u16>) -> bool {
    &&& !v6_is_multicast(s)
    &&& !v6_is_loopback(s)
    &&& !v6_is_unicast_link_local(s)
    &&& !v6_is_unique_local(s)
    &&& !v6_is_unspecified(s)
    &&& !v6_is_documentation(s)
}

/// A globally routable IPv6 address: a multicast address of global scope, or
/// a unicast address outside the special ranges.
pub open spec fn v6_is_global(s: Seq<u16>) -> bool {
    match v6_multicast_scope(s) {
        Some(Ipv6MulticastScope::Global) => true,
        None => v6_is_unicast_global(s),
        _ => false,
    }
}

impl IpAddress {
    pub open spec fn spec_is_loopback(self) -> bool {
        match self {
            IpAddress::V4(o) => v4_is_loopback(o@),
            IpAddress::V6(s) => v6_is_loopback(s@),
        }
    }

    pub open spec fn spec_is_global(self) -> bool {
        match self {
            IpAddress::V4(o) => v4_is_global(o@),
            IpAddress::V6(s) => v6_is_global(s@),
        }
    }

    pub fn is_ipv4(&self) -> (r: bool)
        ensures
            r == (*self is V4),
    {
        match self {
            IpAddress::V4(_) => true,
            IpAddress::V6(_) => false,
        }
    }

    pub fn is_loopback(&self) -> (r: bool)
        ensures
            r == self.spec_is_loopback(),
    {
        match self {
            IpAddress::V4(o) => o[0] == 127,
            IpAddress::V6(s) => {
                let r = s[0] == 0 && s[1] == 0 && s[2] == 0 && s[3] == 0 && s[4] == 0 && s[5] == 0
                    && s[6] == 0 && s[7] == 1;
                proof {
                    if r {
                        assert forall|i: int| 0 <= i < 7 implies s@[i] == 0 by {
                            assert(s@[0] == 0 && s@[1] == 0 && s@[2] == 0 && s@[3] == 0);
                            assert(s@[4] == 0 && s@[5] == 0 && s@[6] == 0);
                        }
                    }
                }
                r
            },
        }
    }

    /// Whether the address is globally routable.
    pub fn is_global(&self) -> (r: bool)
        ensures
            r == self.spec_is_global(),
    {
        match self {
            IpAddress::V4(o) => is_global_v4(o),
            IpAddress::V6(s) => is_global_v6(s),
        }
    }

    /// Whether an interface with this address takes part in SSDP: loopback
    /// addresses never do, and IPv6 addresses only when they are not global,
    /// since SSDP is link-local.
    pub fn is_ssdp_candidate(&self) -> (r: bool)
        ensures
            r == (!self.spec_is_loopback() && (*self is V4 || !self.spec_is_global())),
    {
        !self.is_loopback() && (self.is_ipv4() || !self.is_global())
    }
}

fn is_global_v4(o: &[u8; 4]) -> (r: bool)
    ensures
        r == v4_is_global(o@),
{
    let (a, b, c, d) = (o[0], o[1], o[2], o[3]);
    if a == 192 && b == 0 && c == 0 && (d == 9 || d == 10) {
        return true;
    }
    let private = a == 10 || (a == 172 && 16 <= b && b <= 31) || (a == 192 && b == 168);
    let loopback = a == 127;
    let link_local = a == 169 && b == 254;
    let broadcast = a == 255 && b == 255 && c == 255 && d == 255;
    let documentation = (a == 192 && b == 0 && c == 2) || (a == 198 && b == 51 && c == 100) || (
    a == 203 && b == 0 && c == 113);
    let shared = a == 100 && 64 <= b && b <= 127;
    let protocol_assignment = a == 192 && b == 0 && c == 0;
    let reserved = a >= 240 && !broadcast;
    let benchmarking = a == 198 && (b == 18 || b == 19);
    !private && !loopback && !link_local && !broadcast && !documentation && !shared
        && !protocol_assignment && !reserved && !benchmarking && a != 0
}

fn multicast_scope(s: &[u16; 8]) -> (r: Option<Ipv6MulticastScope>)
    ensures
        r == v6_multicast_scope(s@),
{
    if s[0] < 0xff00 {
        return None;
    }
    let f = s[0] % 16;
    if f == 1 {
        Some(Ipv6MulticastScope::InterfaceLocal)
    } else if f == 2 {
        Some(Ipv6MulticastScope::LinkLocal)
    } else if f == 3 {
        Some(Ipv6MulticastScope::RealmLocal)
    } else if f == 4 {
        Some(Ipv6MulticastScope::AdminLocal)
    } else if f == 5 {
        Some(Ipv6MulticastScope::SiteLocal)
    } else if f == 8 {
        Some(Ipv6MulticastScope::OrganizationLocal)
    } else if f == 14 {
        Some(Ipv6MulticastScope::Global)
    } else {
        None
    }
}

fn is_unicast_global(s: &[u16; 8]) -> (r: bool)
    ensures
        r == v6_is_unicast_global(s@),
{
    let mut zeros: usize = 0;
    let mut i: usize = 0;
    while i < 7
        invariant
            i <= 7,
            zeros <= i,
            (zeros == i) == (forall|j: int| 0 <= j < i ==> s@[j] == 0),
        decreases 7 - i,
    {
        if s[i] == 0 && zeros == i {
            zeros = zeros + 1;
        }
        i = i + 1;
    }
    let leading_zero = zeros == 7;
    let loopback = leading_zero && s[7] == 1;
    let unspecified = leading_zero && s[7] == 0;
    proof {
        if v6_is_unspecified(s@) {
            assert(forall|j: int| 0 <= j < 7 ==> s@[j] == 0);
            assert(s@[7] == 0);
        }
        if unspecified {
            assert forall|j: int| 0 <= j < 8 implies s@[j] == 0 by {
                if j < 7 {
                    assert(s@[j] == 0);
                }
            }
        }
    }
    let multicast = s[0] >= 0xff00;
    let link_local = 0xfe80 <= s[0] && s[0] <= 0xfebf;
    let unique_local = 0xfc00 <= s[0] && s[0] <= 0xfdff;
    let documentation = s[0] == 0x2001 && s[1] == 0xdb8;
    !multicast && !loopback && !link_local && !unique_local && !unspecified && !documentation
}

fn is_global_v6(s: &[u16; 8]) -> (r: bool)
    ensures
        r == v6_is_global(s@),
{
    match multicast_scope(s) {
        Some(Ipv6MulticastScope::Global) => true,
        None => is_unicast_global(s),
        _ => false,
    }
}

/// The request line of an HTTP request written for a stream names the
/// target `/`; an SSDP request needs `*`. The first `/` becomes `*`, unless
/// the bytes begin with `H`, as a status line does.
pub open spec fn spec_rewrite_target(buf: Seq<u8>) -> Seq<u8> {
    if buf.len() > 0 && buf[0] != 72u8 && exists|i: int| 0 <= i < buf.len() && buf[i] == 47u8 {
        let i = choose|i: int|
            0 <= i < buf.len() && buf[i] == 47u8 && forall|j: int| 0 <= j < i ==> buf[j] != 47u8;
        buf.update(i, 42u8)
    } else {
        buf
    }
}

/// Copies the bytes of a request, with its target rewritten to `*`.
pub fn rewrite_request_target(buf: &[u8]) -> (r: Vec<u8>)
    ensures
        r@ == spec_rewrite_target(buf@),
{
    let mut out: Vec<u8> = Vec::new();
    let mut found = false;
    let mut i: usize = 0;
    while i < buf.len()
        invariant
            i <= buf@.len(),
            out@.len() == i,
            !found ==> (buf@.len() > 0 && buf@[0] == 72u8) || forall|j: int| 0 <= j < i ==> buf@[j] != 47u8,
            !found ==> out@ == buf@.subrange(0, i as int),
            found ==> buf@[0] != 72u8,
            found ==> exists|k: int|
                0 <= k < i && buf@[k] == 47u8 && (forall|j: int| 0 <= j < k ==> buf@[j] != 47u8)
                    && out@ == buf@.subrange(0, i as int).update(k, 42u8),
        decreases buf@.len() - i,
    {
        let b = buf[i];
        if b == 47u8 && !found && buf[0] != 72u8 {
            proof {
                assert(out@.push(42u8) == buf@.subrange(0, i + 1).update(i as int, 42u8));
            }
            out.push(42u8);
            found = true;
        } else {
            proof {
                if found {
                    let k = choose|k: int|
                        0 <= k < i && buf@[k] == 47u8 && (forall|j: int| 0 <= j < k ==> buf@[j] != 47u8)
                            && out@ == buf@.subrange(0, i as int).update(k, 42u8);
                    assert(out@.push(b) =~= buf@.subrange(0, i + 1).update(k, 42u8));
                } else {
                    assert(out@.push(b) =~= buf@.subrange(0, i + 1));
                }
            }
            out.push(b);
        }
        i = i + 1;
    }
    proof {
        assert(buf@.subrange(0, buf@.len() as int) =~= buf@);
        if found {
            let k = choose|k: int|
                0 <= k < buf@.len() && buf@[k] == 47u8 && (forall|j: int| 0 <= j < k ==> buf@[j]
                    != 47u8) && out@ == buf@.subrange(0, buf@.len() as int).update(k, 42u8);
            let c = choose|c: int|
                0 <= c < buf@.len() && buf@[c] == 47u8 && forall|j: int| 0 <= j < c ==> buf@[j] != 47u8;
            assert(c == k) by {
                if c < k {
                    assert(buf@[c] != 47u8);
                } else if c > k {
                    assert(buf@[k] != 47u8);
                }
            }
        } else if buf@.len() > 0 && buf@[0] != 72u8 {
            assert(!exists|j: int| 0 <= j < buf@.len() && buf@[j] == 47u8);
        }
    }
    out
}

} // verus!
