use vstd::prelude::*;
use vstd::utf8::*;

use crate::error::SSDPError;
use crate::field::{lemma_field_round_trip, spec_parse_field, FieldMap, FieldMapView};
use crate::header::SSDPHeader;
use crate::text::string_bytes;

verus! {

/// Represents a header used to specify a notification type.
///
/// Any double colons will not be processed as separate `FieldMap`'s.
#[derive(Clone, PartialEq, Eq, Hash, Debug)]
pub struct NT(pub FieldMap);

impl View for NT {
    type V = FieldMapView;

    open spec fn view(&self) -> FieldMapView {
        self.0@
    }
}

impl NT {
    pub fn new(field: FieldMap) -> (r: NT)
        ensures
            r@ == field@,
    {
        NT(field)
    }
}

impl SSDPHeader for NT {
    open spec fn spec_name() -> Seq<char> {
        seq!['N', 'T']
    }

    open spec fn spec_parse(raw: Seq<Seq<u8>>) -> Option<FieldMapView> {
        if raw.len() != 1 {
            None
        } else {
            spec_parse_field(raw[0])
        }
    }

    open spec fn spec_format(v: FieldMapView) -> Seq<u8> {
        encode_utf8(v.format())
    }

    fn header_name() -> (r: &'static str) {
        proof {
            reveal_strlit("NT");
            assert("NT"@ =~= seq!['N', 'T']);
        }
        "NT"
    }

    fn parse_header(raw: &[Vec<u8>]) -> (r: Result<NT, SSDPError>) {
        if raw.len() != 1 {
            return Err(SSDPError::InvalidHeader("NT", "Expected exactly one line"));
        }
        assert(raw.deep_view()[0] == raw@[0]@);
        match FieldMap::parse_bytes(raw[0].as_slice()) {
            Some(f) => Ok(NT(f)),
            None => Err(SSDPError::InvalidHeader("NT", "Not a key:value pair")),
        }
    }

    fn fmt_header(&self) -> (r: Vec<u8>) {
        string_bytes(&self.0.to_string())
    }
}

/// A well-formed pair reads back from the line that formats it.
pub proof fn lemma_nt_round_trip(f: FieldMapView)
    requires
        f.wf(),
    ensures
        NT::spec_parse(seq![NT::spec_format(f)]) == Some(f),
{
    lemma_field_round_trip(f);
    assert(seq![NT::spec_format(f)][0] == NT::spec_format(f));
}

} // verus!
