use vstd::prelude::*;

use crate::error::SSDPError;
use crate::header::SSDPHeader;
use crate::text::{
    decimal_bytes, decimal_of, digits_value, is_decimal, lemma_parse_unsigned_decimal, parse_unsigned,
    spec_parse_unsigned, unsigned_digits,
};

verus! {

/// Minimum wait time specified in the `UPnP` 1.0 standard.
pub const MX_HEADER_MIN: u8 = 1;

/// Maximum wait time specified in the `UPnP` 1.0 standard.
pub const MX_HEADER_MAX: u8 = 120;

/// Represents a header used to specify the maximum time that devices should wait
/// before sending a response.
///
/// Should only be increased as the number of devices expected to respond
/// increases, not because of latency or propagation delay.
#[derive(Copy, Clone, PartialEq, Eq, Hash, Debug)]
pub struct MX(pub u8);

impl View for MX {
    type V = MX;

    open spec fn view(&self) -> MX {
        *self
    }
}

impl MX {
    /// A wait bound within the standard's limits.
    pub fn new(wait_bound: u8) -> (r: Result<MX, SSDPError>)
        ensures
            r is Ok <==> MX_HEADER_MIN <= wait_bound <= MX_HEADER_MAX,
            r matches Ok(m) ==> m == MX(wait_bound),
            r matches Err(e) ==> e is InvalidHeader,
    {
        if wait_bound < MX_HEADER_MIN || wait_bound > MX_HEADER_MAX {
            Err(SSDPError::InvalidHeader("MX", "Supplied Wait Bound Is Out Of Bounds"))
        } else {
            Ok(MX(wait_bound))
        }
    }
}

impl SSDPHeader for MX {
    open spec fn spec_name() -> Seq<char> {
        seq!['M', 'X']
    }

    open spec fn spec_parse(raw: Seq<Seq<u8>>) -> Option<MX> {
        if raw.len() != 1 {
            None
        } else {
            match spec_parse_unsigned(raw[0], MX_HEADER_MAX as nat) {
                Some(n) => if n >= MX_HEADER_MIN {
                    Some(MX(n as u8))
                } else {
                    None
                },
                None => None,
            }
        }
    }

    open spec fn spec_format(v: MX) -> Seq<u8> {
        decimal_of(v.0 as nat)
    }

    fn header_name() -> (r: &'static str) {
        proof {
            reveal_strlit("MX");
            assert("MX"@ =~= seq!['M', 'X']);
        }
        "MX"
    }

    fn parse_header(raw: &[Vec<u8>]) -> (r: Result<MX, SSDPError>) {
        if raw.len() != 1 {
            return Err(SSDPError::InvalidHeader("MX", "Expected exactly one line"));
        }
        assert(raw.deep_view()[0] == raw@[0]@);
        match parse_unsigned(raw[0].as_slice(), MX_HEADER_MAX as u64) {
            Some(n) if n >= MX_HEADER_MIN as u64 => Ok(MX(n as u8)),
            _ => Err(SSDPError::InvalidHeader("MX", "Not a wait bound from 1 to 120")),
        }
    }

    fn fmt_header(&self) -> (r: Vec<u8>) {
        decimal_bytes(self.0 as u64)
    }
}

/// Every value in range reads back from the line that formats it.
pub proof fn lemma_mx_round_trip(n: u8)
    requires
        1 <= n <= 120,
    ensures
        MX::spec_parse(seq![MX::spec_format(MX(n))]) == Some(MX(n)),
{
    lemma_parse_unsigned_decimal(n as nat, MX_HEADER_MAX as nat);
}

/// A line parses only when it is the decimal form, written with at most a leading `+`,
/// of a wait bound from 1 to 120; a
/// leading `-` is refused.
pub proof fn lemma_mx_parse_exact(line: Seq<u8>)
    ensures
        MX::spec_parse(seq![line]) matches Some(m) ==> {
            &&& m.0 >= 1
            &&& is_decimal(unsigned_digits(line))
            &&& digits_value(unsigned_digits(line)) == m.0 as nat
        },
        line.len() > 0 && line[0] == 45u8 ==> MX::spec_parse(seq![line]) is None,
{
    assert(seq![line][0] == line);
    if line.len() > 0 && line[0] == 45u8 {
        assert(!is_decimal(unsigned_digits(line))) by {
            assert(unsigned_digits(line)[0] == 45u8);
        }
    }
}

} // verus!
