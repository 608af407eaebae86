use vstd::prelude::*;

use crate::error::SSDPError;
use crate::header::SSDPHeader;
use crate::text::{
    decimal_bytes, decimal_of, digits_value, is_decimal, lemma_parse_unsigned_decimal, parse_unsigned,
    spec_parse_unsigned, unsigned_digits,
};

verus! {

/// The lowest port a search port may name.
pub const SEARCHPORT_MIN_VALUE: u16 = 49152;

/// Represents a header used to specify a unicast port to send search requests to.
///
/// If a `SearchPort` header is not included in a message then the device must
/// respond to unicast search requests on the standard port of 1900.
#[derive(Copy, Clone, PartialEq, Eq, Hash, Debug)]
pub struct SearchPort(pub u16);

impl View for SearchPort {
    type V = SearchPort;

    open spec fn view(&self) -> SearchPort {
        *self
    }
}

impl SSDPHeader for SearchPort {
    open spec fn spec_name() -> Seq<char> {
        seq!['S', 'E', 'A', 'R', 'C', 'H', 'P', 'O', 'R', 'T', '.', 'U', 'P', 'N', 'P', '.', 'O', 'R', 'G']
    }

    open spec fn spec_parse(raw: Seq<Seq<u8>>) -> Option<SearchPort> {
        if raw.len() != 1 {
            None
        } else {
            match spec_parse_unsigned(raw[0], 65535) {
                Some(n) => if n >= SEARCHPORT_MIN_VALUE {
                    Some(SearchPort(n as u16))
                } else {
                    None
                },
                None => None,
            }
        }
    }

    open spec fn spec_format(v: SearchPort) -> Seq<u8> {
        decimal_of(v.0 as nat)
    }

    fn header_name() -> (r: &'static str) {
        proof {
            reveal_strlit("SEARCHPORT.UPNP.ORG");
            assert("SEARCHPORT.UPNP.ORG"@ =~= seq!['S', 'E', 'A', 'R', 'C', 'H', 'P', 'O', 'R', 'T', '.', 'U', 'P', 'N', 'P', '.', 'O', 'R', 'G']);
        }
        "SEARCHPORT.UPNP.ORG"
    }

    fn parse_header(raw: &[Vec<u8>]) -> (r: Result<SearchPort, SSDPError>) {
        if raw.len() != 1 {
            return Err(SSDPError::InvalidHeader("SEARCHPORT.UPNP.ORG", "Expected exactly one line"));
        }
        assert(raw.deep_view()[0] == raw@[0]@);
        match parse_unsigned(raw[0].as_slice(), 65535) {
            Some(n) if n >= SEARCHPORT_MIN_VALUE as u64 => Ok(SearchPort(n as u16)),
            _ => Err(SSDPError::InvalidHeader("SEARCHPORT.UPNP.ORG", "Not a port from 49152 to 65535")),
        }
    }

    fn fmt_header(&self) -> (r: Vec<u8>) {
        decimal_bytes(self.0 as u64)
    }
}

/// Every value in range reads back from the line that formats it.
pub proof fn lemma_searchport_round_trip(n: u16)
    requires
        n >= 49152,
    ensures
        SearchPort::spec_parse(seq![SearchPort::spec_format(SearchPort(n))]) == Some(SearchPort(n)),
{
    lemma_parse_unsigned_decimal(n as nat, 65535);
}

/// A line parses only when it is the decimal form, written with at most a leading `+`,
/// of a port from 49152 to 65535; a
/// leading `-` is refused.
pub proof fn lemma_searchport_parse_exact(line: Seq<u8>)
    ensures
        SearchPort::spec_parse(seq![line]) matches Some(m) ==> {
            &&& m.0 >= 49152
            &&& is_decimal(unsigned_digits(line))
            &&& digits_value(unsigned_digits(line)) == m.0 as nat
        },
        line.len() > 0 && line[0] == 45u8 ==> SearchPort::spec_parse(seq![line]) is None,
{
    assert(seq![line][0] == line);
    if line.len() > 0 && line[0] == 45u8 {
        assert(!is_decimal(unsigned_digits(line))) by {
            assert(unsigned_digits(line)[0] == 45u8);
        }
    }
}

} // verus!
