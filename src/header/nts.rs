use vstd::prelude::*;

use crate::error::SSDPError;
use crate::header::{bytes_eq, SSDPHeader};

verus! {

pub open spec fn alive_value() -> Seq<u8> {
    seq![115u8, 115, 100, 112, 58, 97, 108, 105, 118, 101]
}

pub open spec fn update_value() -> Seq<u8> {
    seq![115u8, 115, 100, 112, 58, 117, 112, 100, 97, 116, 101]
}

pub open spec fn byebye_value() -> Seq<u8> {
    seq![115u8, 115, 100, 112, 58, 98, 121, 101, 98, 121, 101]
}

/// Represents a header which specifies a notification sub type.
#[derive(Copy, Clone, PartialEq, Eq, Hash, Debug)]
pub enum NTS {
    /// An entity is announcing itself to the network.
    Alive,
    /// An entity is updating its presence on the network. Introduced in UPnP 1.0.
    ///
    /// Contrary to it's name, an update message will only appear when some UPnP
    /// enabled interface is added to an already existing UPnP device on a network.
    Update,
    /// An entity is removing itself from the network.
    ByeBye,
}

impl View for NTS {
    type V = NTS;

    open spec fn view(&self) -> NTS {
        *self
    }
}

impl NTS {
    fn value_bytes(&self) -> (r: Vec<u8>)
        ensures
            r@ == NTS::spec_format(*self),
    {
        match self {
            NTS::Alive => {
                let r: Vec<u8> = vec![115u8, 115, 100, 112, 58, 97, 108, 105, 118, 101];
                assert(r@ =~= alive_value());
                r
            },
            NTS::Update => {
                let r: Vec<u8> = vec![115u8, 115, 100, 112, 58, 117, 112, 100, 97, 116, 101];
                assert(r@ =~= update_value());
                r
            },
            NTS::ByeBye => {
                let r: Vec<u8> = vec![115u8, 115, 100, 112, 58, 98, 121, 101, 98, 121, 101];
                assert(r@ =~= byebye_value());
                r
            },
        }
    }
}

impl SSDPHeader for NTS {
    open spec fn spec_name() -> Seq<char> {
        seq!['N', 'T', 'S']
    }

    open spec fn spec_parse(raw: Seq<Seq<u8>>) -> Option<NTS> {
        if raw.len() != 1 {
            None
        } else if raw[0] == alive_value() {
            Some(NTS::Alive)
        } else if raw[0] == update_value() {
            Some(NTS::Update)
        } else if raw[0] == byebye_value() {
            Some(NTS::ByeBye)
        } else {
            None
        }
    }

    open spec fn spec_format(v: NTS) -> Seq<u8> {
        match v {
            NTS::Alive => alive_value(),
            NTS::Update => update_value(),
            NTS::ByeBye => byebye_value(),
        }
    }

    fn header_name() -> (r: &'static str) {
        proof {
            reveal_strlit("NTS");
            assert("NTS"@ =~= seq!['N', 'T', 'S']);
        }
        "NTS"
    }

    fn parse_header(raw: &[Vec<u8>]) -> (r: Result<NTS, SSDPError>) {
        if raw.len() != 1 {
            return Err(SSDPError::InvalidHeader("NTS", "Expected exactly one line"));
        }
        assert(raw.deep_view()[0] == raw@[0]@);
        let line = raw[0].as_slice();
        if bytes_eq(line, NTS::Alive.value_bytes().as_slice()) {
            Ok(NTS::Alive)
        } else if bytes_eq(line, NTS::Update.value_bytes().as_slice()) {
            Ok(NTS::Update)
        } else if bytes_eq(line, NTS::ByeBye.value_bytes().as_slice()) {
            Ok(NTS::ByeBye)
        } else {
            Err(SSDPError::InvalidHeader("NTS", "Not a notification sub type"))
        }
    }

    fn fmt_header(&self) -> (r: Vec<u8>) {
        self.value_bytes()
    }
}

/// Every notification sub type reads back from the line that formats it.
pub proof fn lemma_nts_round_trip(v: NTS)
    ensures
        NTS::spec_parse(seq![NTS::spec_format(v)]) == Some(v),
{
    assert(seq![NTS::spec_format(v)][0] == NTS::spec_format(v));
    assert(alive_value() != update_value()) by {
        assert(alive_value().len() != update_value().len());
    }
    assert(alive_value() != byebye_value()) by {
        assert(alive_value().len() != byebye_value().len());
    }
    assert(update_value() != byebye_value()) by {
        assert(update_value()[5] != byebye_value()[5]);
    }
}

} // verus!
