use vstd::prelude::*;
use vstd::utf8::*;

use crate::error::SSDPError;
use crate::field::{lemma_field_round_trip, spec_parse_field, FieldMap, FieldMapView};
use crate::header::{bytes_eq, SSDPHeader};
use crate::text::string_bytes;

verus! {

pub open spec fn st_all_value() -> Seq<u8> {
    seq![115u8, 115, 100, 112, 58, 97, 108, 108]
}

fn st_all_bytes() -> (r: Vec<u8>)
    ensures
        r@ == st_all_value(),
{
    let r: Vec<u8> = vec![115u8, 115, 100, 112, 58, 97, 108, 108];
    assert(r@ =~= st_all_value());
    r
}

/// Represents a header which specifies the search target.
#[derive(Clone, PartialEq, Eq, Hash, Debug)]
pub enum ST {
    All,
    Target(FieldMap),
}

/// What an `ST` holds.
pub enum STView {
    All,
    Target(FieldMapView),
}

impl View for ST {
    type V = STView;

    open spec fn view(&self) -> STView {
        match self {
            ST::All => STView::All,
            ST::Target(f) => STView::Target(f@),
        }
    }
}

impl SSDPHeader for ST {
    open spec fn spec_name() -> Seq<char> {
        seq!['S', 'T']
    }

    open spec fn spec_parse(raw: Seq<Seq<u8>>) -> Option<STView> {
        if raw.len() != 1 {
            None
        } else if raw[0] == st_all_value() {
            Some(STView::All)
        } else {
            match spec_parse_field(raw[0]) {
                Some(f) => Some(STView::Target(f)),
                None => None,
            }
        }
    }

    open spec fn spec_format(v: STView) -> Seq<u8> {
        match v {
            STView::All => st_all_value(),
            STView::Target(f) => encode_utf8(f.format()),
        }
    }

    fn header_name() -> (r: &'static str) {
        proof {
            reveal_strlit("ST");
            assert("ST"@ =~= seq!['S', 'T']);
        }
        "ST"
    }

    fn parse_header(raw: &[Vec<u8>]) -> (r: Result<ST, SSDPError>) {
        if raw.len() != 1 {
            return Err(SSDPError::InvalidHeader("ST", "Expected exactly one line"));
        }
        assert(raw.deep_view()[0] == raw@[0]@);
        let all = st_all_bytes();
        if bytes_eq(raw[0].as_slice(), all.as_slice()) {
            Ok(ST::All)
        } else {
            match FieldMap::parse_bytes(raw[0].as_slice()) {
                Some(f) => Ok(ST::Target(f)),
                None => Err(SSDPError::InvalidHeader("ST", "Not ssdp:all nor a key:value pair")),
            }
        }
    }

    fn fmt_header(&self) -> (r: Vec<u8>) {
        match self {
            ST::All => st_all_bytes(),
            ST::Target(f) => string_bytes(&f.to_string()),
        }
    }
}

/// Every search target reads back from the line that formats it, but for a
/// pair whose line is `ssdp:all`, which reads as `All`.
pub proof fn lemma_st_round_trip(v: STView)
    requires
        v matches STView::Target(f) ==> f.wf() && encode_utf8(f.format()) != st_all_value(),
    ensures
        ST::spec_parse(seq![ST::spec_format(v)]) == Some(v),
{
    assert(seq![ST::spec_format(v)][0] == ST::spec_format(v));
    if let STView::Target(f) = v {
        lemma_field_round_trip(f);
    }
}

} // verus!
