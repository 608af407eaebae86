use vstd::prelude::*;
use vstd::utf8::*;

use crate::error::SSDPError;
use crate::header::SSDPHeader;
use crate::text::{lemma_encode_utf8_nonempty, string_bytes, utf8_decode};

verus! {

/// Represents a header used to specify a secure url for a device's description.
///
/// Can be used instead of the `Location` header field.
#[derive(Clone, PartialEq, Eq, Hash, Debug)]
pub struct SecureLocation(pub String);

impl View for SecureLocation {
    type V = Seq<char>;

    open spec fn view(&self) -> Seq<char> {
        self.0@
    }
}

impl SSDPHeader for SecureLocation {
    open spec fn spec_name() -> Seq<char> {
        seq!['S', 'E', 'C', 'U', 'R', 'E', 'L', 'O', 'C', 'A', 'T', 'I', 'O', 'N', '.', 'U', 'P', 'N', 'P', '.', 'O', 'R', 'G']
    }

    /// One line that is not empty and is valid UTF-8.
    open spec fn spec_parse(raw: Seq<Seq<u8>>) -> Option<Seq<char>> {
        if raw.len() == 1 && raw[0].len() > 0 && valid_utf8(raw[0]) {
            Some(decode_utf8(raw[0]))
        } else {
            None
        }
    }

    open spec fn spec_format(v: Seq<char>) -> Seq<u8> {
        encode_utf8(v)
    }

    fn header_name() -> (r: &'static str) {
        proof {
            reveal_strlit("SECURELOCATION.UPNP.ORG");
            assert("SECURELOCATION.UPNP.ORG"@ =~= seq!['S', 'E', 'C', 'U', 'R', 'E', 'L', 'O', 'C', 'A', 'T', 'I', 'O', 'N', '.', 'U', 'P', 'N', 'P', '.', 'O', 'R', 'G']);
        }
        "SECURELOCATION.UPNP.ORG"
    }

    fn parse_header(raw: &[Vec<u8>]) -> (r: Result<SecureLocation, SSDPError>) {
        if raw.len() != 1 || raw[0].len() == 0 {
            return Err(SSDPError::InvalidHeader("SECURELOCATION.UPNP.ORG", "Expected one line that is not empty"));
        }
        assert(raw.deep_view()[0] == raw@[0]@);
        match utf8_decode(raw[0].clone()) {
            Some(s) => Ok(SecureLocation(s)),
            None => Err(SSDPError::InvalidHeader("SECURELOCATION.UPNP.ORG", "Not valid UTF-8")),
        }
    }

    fn fmt_header(&self) -> (r: Vec<u8>) {
        string_bytes(&self.0)
    }
}

/// A location that is not empty reads back from the line that formats it.
pub proof fn lemma_securelocation_round_trip(v: Seq<char>)
    requires
        v.len() > 0,
    ensures
        SecureLocation::spec_parse(seq![SecureLocation::spec_format(v)]) == Some(v),
{
    assert(seq![SecureLocation::spec_format(v)][0] == encode_utf8(v));
    encode_utf8_valid_utf8(v);
    encode_utf8_decode_utf8(v);
    lemma_encode_utf8_nonempty(v);
}

} // verus!
