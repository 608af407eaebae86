//! Headers and primitives for parsing headers within SSDP messages.
//!
//! Each SSDP header type reads its value from the raw lines of a message and
//! writes it back as one raw line.

use vstd::prelude::*;

use crate::error::SSDPError;

mod bootid;
mod configid;
mod man;
mod mx;
mod nt;
mod nts;
mod searchport;
mod securelocation;
mod st;
mod usn;




pub use self::bootid::BootID;
pub use self::configid::ConfigID;
pub use self::man::Man;
pub use self::mx::MX;
pub use self::nt::NT;
pub use self::nts::NTS;
pub use self::securelocation::SecureLocation;
pub use self::st::{STView, ST};
pub use self::usn::USN;
pub use self::searchport::SearchPort;







verus! {

/// A header with a typed value, read from and written to raw header lines.
pub trait SSDPHeader: Sized + View {
    /// The header name.
    spec fn spec_name() -> Seq<char>;

    /// The value that the raw lines hold, if they hold one.
    spec fn spec_parse(raw: Seq<Seq<u8>>) -> Option<Self::V>;

    /// The raw line for a value.
    spec fn spec_format(v: Self::V) -> Seq<u8>;

    /// The HTTP header name, upper case.
    fn header_name() -> (r: &'static str)
        ensures
            r@ == Self::spec_name(),
    ;

    /// Reads the value from the raw lines of the header.
    fn parse_header(raw: &[Vec<u8>]) -> (r: Result<Self, SSDPError>)
        ensures
            match r {
                Ok(h) => Self::spec_parse(raw.deep_view()) == Some(h@),
                Err(e) => Self::spec_parse(raw.deep_view()) is None && e is InvalidHeader,
            },
    ;

    /// Writes the value as one raw line.
    fn fmt_header(&self) -> (r: Vec<u8>)
        ensures
            r@ == Self::spec_format(self@),
    ;
}

/// A header name as HTTP compares it: without regard to ASCII case.
pub open spec fn ascii_lower(s: Seq<char>) -> Seq<char> {
    s.map_values(|c: char| if 'A' <= c <= 'Z' { ((c as u32) + 32) as char } else { c })
}

/// Read access to the headers of a message.
pub trait HeaderRef {
    /// The raw lines of each header, by ASCII-lowercased name.
    spec fn header_map(&self) -> Map<Seq<char>, Seq<Seq<u8>>>;

    /// The typed value of a header: present only when the header is there
    /// and its lines parse.
    fn get<H: SSDPHeader>(&self) -> (r: Option<H>)
        ensures
            match r {
                Some(h) => self.header_map().contains_key(ascii_lower(H::spec_name()))
                    && H::spec_parse(self.header_map()[ascii_lower(H::spec_name())]) == Some(h@),
                None => !self.header_map().contains_key(ascii_lower(H::spec_name())) || H::spec_parse(
                    self.header_map()[ascii_lower(H::spec_name())],
                ) is None,
            },
    ;

    /// The raw lines of a header, if it is there.
    fn get_raw(&self, name: &str) -> (r: Option<&[Vec<u8>]>)
        ensures
            match r {
                Some(v) => self.header_map().contains_key(ascii_lower(name@)) && v.deep_view()
                    == self.header_map()[ascii_lower(name@)],
                None => !self.header_map().contains_key(ascii_lower(name@)),
            },
    ;
}

/// Write access to the headers of a message.
pub trait HeaderMut: HeaderRef {
    /// Sets a header to the line that formats the value, replacing any lines
    /// it had.
    fn set<H: SSDPHeader>(&mut self, value: H)
        ensures
            final(self).header_map() == old(self).header_map().insert(
                ascii_lower(H::spec_name()),
                seq![H::spec_format(value@)],
            ),
    ;

    /// Sets the raw lines of a header, replacing any it had.
    fn set_raw(&mut self, name: &str, value: Vec<Vec<u8>>)
        ensures
            final(self).header_map() == old(self).header_map().insert(
                ascii_lower(name@),
                value.deep_view(),
            ),
    ;
}

/// Byte strings are equal.
pub fn bytes_eq(a: &[u8], b: &[u8]) -> (r: bool)
    ensures
        r == (a@ == b@),
{
    if a.len() != b.len() {
        return false;
    }
    let mut i: usize = 0;
    while i < a.len()
        invariant
            a@.len() == b@.len(),
            i <= a@.len(),
            forall|j: int| 0 <= j < i ==> a@[j] == b@[j],
        decreases a@.len() - i,
    {
        if a[i] != b[i] {
            return false;
        }
        i = i + 1;
    }
    assert(a@ =~= b@);
    true
}

} // verus!
