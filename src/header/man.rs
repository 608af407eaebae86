use vstd::prelude::*;

use crate::error::SSDPError;
use crate::header::{bytes_eq, SSDPHeader};

verus! {

/// The only value of the MAN header, quotes included: `"ssdp:discover"`.
pub open spec fn man_value() -> Seq<u8> {
    seq![34u8, 115, 115, 100, 112, 58, 100, 105, 115, 99, 111, 118, 101, 114, 34]
}

fn man_value_bytes() -> (r: Vec<u8>)
    ensures
        r@ == man_value(),
{
    let r: Vec<u8> = vec![34u8, 115, 115, 100, 112, 58, 100, 105, 115, 99, 111, 118, 101, 114, 34];
    assert(r@ =~= man_value());
    r
}

/// Represents a header used to specify HTTP extension.
#[derive(Copy, Clone, PartialEq, Eq, Hash, Debug)]
pub struct Man;

impl View for Man {
    type V = Man;

    open spec fn view(&self) -> Man {
        *self
    }
}

impl SSDPHeader for Man {
    open spec fn spec_name() -> Seq<char> {
        seq!['M', 'A', 'N']
    }

    open spec fn spec_parse(raw: Seq<Seq<u8>>) -> Option<Man> {
        if raw.len() == 1 && raw[0] == man_value() {
            Some(Man)
        } else {
            None
        }
    }

    open spec fn spec_format(v: Man) -> Seq<u8> {
        man_value()
    }

    fn header_name() -> (r: &'static str) {
        proof {
            reveal_strlit("MAN");
            assert("MAN"@ =~= seq!['M', 'A', 'N']);
        }
        "MAN"
    }

    fn parse_header(raw: &[Vec<u8>]) -> (r: Result<Man, SSDPError>) {
        if raw.len() != 1 {
            return Err(SSDPError::InvalidHeader("MAN", "Expected exactly one line"));
        }
        assert(raw.deep_view()[0] == raw@[0]@);
        let expected = man_value_bytes();
        if bytes_eq(raw[0].as_slice(), expected.as_slice()) {
            Ok(Man)
        } else {
            Err(SSDPError::InvalidHeader("MAN", "Expected \"ssdp:discover\""))
        }
    }

    fn fmt_header(&self) -> (r: Vec<u8>) {
        man_value_bytes()
    }
}

/// The MAN header reads back from the line that formats it.
pub proof fn lemma_man_round_trip()
    ensures
        Man::spec_parse(seq![Man::spec_format(Man)]) == Some(Man),
{
    assert(seq![Man::spec_format(Man)][0] == man_value());
}

} // verus!
