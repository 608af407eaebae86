use vstd::prelude::*;

use crate::error::SSDPError;
use crate::header::SSDPHeader;
use crate::text::{
    decimal_bytes, decimal_of, digits_value, is_decimal, lemma_parse_nonnegative_i32_decimal,
    parse_nonnegative_i32, spec_parse_nonnegative_i32,
};

verus! {

/// Represents a header used to denote the configuration of a device's description.
///
/// Devices should use numbers from 0 to 16777215, but higher values are only
/// reserved, not invalid, so any 31 bit non-negative value is accepted.
#[derive(Copy, Clone, PartialEq, Eq, Hash, Debug)]
pub struct ConfigID(pub u32);

impl View for ConfigID {
    type V = ConfigID;

    open spec fn view(&self) -> ConfigID {
        *self
    }
}

impl SSDPHeader for ConfigID {
    open spec fn spec_name() -> Seq<char> {
        seq!['C', 'O', 'N', 'F', 'I', 'G', 'I', 'D', '.', 'U', 'P', 'N', 'P', '.', 'O', 'R', 'G']
    }

    /// The value must be a 31 bit non-negative integer.
    open spec fn spec_parse(raw: Seq<Seq<u8>>) -> Option<ConfigID> {
        if raw.len() != 1 {
            None
        } else {
            match spec_parse_nonnegative_i32(raw[0]) {
                Some(n) => Some(ConfigID(n as u32)),
                None => None,
            }
        }
    }

    open spec fn spec_format(v: ConfigID) -> Seq<u8> {
        decimal_of(v.0 as nat)
    }

    fn header_name() -> (r: &'static str) {
        proof {
            reveal_strlit("CONFIGID.UPNP.ORG");
            assert("CONFIGID.UPNP.ORG"@ =~= seq!['C', 'O', 'N', 'F', 'I', 'G', 'I', 'D', '.', 'U', 'P', 'N', 'P', '.', 'O', 'R', 'G']);
        }
        "CONFIGID.UPNP.ORG"
    }

    fn parse_header(raw: &[Vec<u8>]) -> (r: Result<ConfigID, SSDPError>) {
        if raw.len() != 1 {
            return Err(SSDPError::InvalidHeader("CONFIGID.UPNP.ORG", "Expected exactly one line"));
        }
        assert(raw.deep_view()[0] == raw@[0]@);
        match parse_nonnegative_i32(raw[0].as_slice()) {
            Some(n) => Ok(ConfigID(n)),
            None => Err(SSDPError::InvalidHeader("CONFIGID.UPNP.ORG", "Not a 31 bit non-negative integer")),
        }
    }

    fn fmt_header(&self) -> (r: Vec<u8>) {
        decimal_bytes(self.0 as u64)
    }
}

/// Every 31 bit non-negative value reads back from the line that formats it.
pub proof fn lemma_configid_round_trip(n: u32)
    requires
        n <= 0x7fff_ffff,
    ensures
        ConfigID::spec_parse(seq![ConfigID::spec_format(ConfigID(n))]) == Some(ConfigID(n)),
{
    lemma_parse_nonnegative_i32_decimal(n as nat);
}

/// A line parses only when it is a decimal number no greater than
/// 2147483647, with at most a leading `+`, or a zero written after `-`.
pub proof fn lemma_configid_parse_exact(line: Seq<u8>)
    ensures
        ConfigID::spec_parse(seq![line]) matches Some(m) ==> {
            &&& m.0 <= 0x7fff_ffff
            &&& line.len() > 0 && line[0] == 45u8 ==> m.0 == 0 && is_decimal(line.drop_first())
                && digits_value(line.drop_first()) == 0
        },
{
    assert(seq![line][0] == line);
}

} // verus!
