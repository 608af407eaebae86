//! `prefix:value` pairs carried inside SSDP header fields.

use vstd::prelude::*;
use vstd::string::*;
use vstd::utf8::*;

use crate::text::{
    lemma_encode_scalar_of_ascii, lemma_encode_utf8_concat, lemma_encode_utf8_excludes,
    lemma_encode_utf8_nonempty, utf8_lossy, utf8_text,
};

verus! {

/// The byte that separates a key from its value.
pub const PAIR_SEPARATOR: u8 = 58;

pub open spec fn upnp_prefix() -> Seq<char> {
    seq!['u', 'p', 'n', 'p']
}

pub open spec fn uuid_prefix() -> Seq<char> {
    seq!['u', 'u', 'i', 'd']
}

pub open spec fn urn_prefix() -> Seq<char> {
    seq!['u', 'r', 'n']
}

/// Enumerates key value pairs embedded within SSDP header fields.
#[derive(Clone, Debug, PartialEq, Eq, Hash)]
pub enum FieldMap {
    /// The "upnp" key with its associated value.
    UPnP(String),
    /// The "uuid" key with its associated value.
    UUID(String),
    /// The "urn" key with its associated value.
    URN(String),
    /// An undefined key, the key and it's value are returned.
    Unknown(String, String),
}

/// What a `FieldMap` holds, as text.
pub enum FieldMapView {
    UPnP(Seq<char>),
    UUID(Seq<char>),
    URN(Seq<char>),
    Unknown(Seq<char>, Seq<char>),
}

impl View for FieldMap {
    type V = FieldMapView;

    open spec fn view(&self) -> FieldMapView {
        match self {
            FieldMap::UPnP(v) => FieldMapView::UPnP(v@),
            FieldMap::UUID(v) => FieldMapView::UUID(v@),
            FieldMap::URN(v) => FieldMapView::URN(v@),
            FieldMap::Unknown(k, v) => FieldMapView::Unknown(k@, v@),
        }
    }
}

pub open spec fn opt_field_view(f: Option<FieldMap>) -> Option<FieldMapView> {
    match f {
        Some(m) => Some(m@),
        None => None,
    }
}

impl FieldMapView {
    /// The key as it is written.
    pub open spec fn key(self) -> Seq<char> {
        match self {
            FieldMapView::UPnP(_) => upnp_prefix(),
            FieldMapView::UUID(_) => uuid_prefix(),
            FieldMapView::URN(_) => urn_prefix(),
            FieldMapView::Unknown(k, _) => k,
        }
    }

    pub open spec fn value(self) -> Seq<char> {
        match self {
            FieldMapView::UPnP(v) => v,
            FieldMapView::UUID(v) => v,
            FieldMapView::URN(v) => v,
            FieldMapView::Unknown(_, v) => v,
        }
    }

    /// The wire form `<key>:<value>`.
    pub open spec fn format(self) -> Seq<char> {
        self.key() + seq![':'] + self.value()
    }

    /// A pair that parsing can produce: key and value are not empty, and an
    /// unknown key holds no separator and is none of the known keys.
    pub open spec fn wf(self) -> bool {
        &&& self.value().len() > 0
        &&& self matches FieldMapView::Unknown(k, _) ==> {
            &&& k.len() > 0
            &&& !k.contains(':')
            &&& k != upnp_prefix()
            &&& k != uuid_prefix()
            &&& k != urn_prefix()
        }
    }
}

/// `i` is the position of the first separator in `b`.
pub open spec fn is_first_separator(b: Seq<u8>, i: int) -> bool {
    &&& 0 <= i < b.len()
    &&& b[i] == PAIR_SEPARATOR
    &&& forall|j: int| 0 <= j < i ==> b[j] != PAIR_SEPARATOR
}

/// The pair that a key and a value make: the known keys, compared exactly,
/// pick their variant.
pub open spec fn classify_text(k: Seq<char>, v: Seq<char>) -> FieldMapView {
    if k == uuid_prefix() {
        FieldMapView::UUID(v)
    } else if k == urn_prefix() {
        FieldMapView::URN(v)
    } else if k == upnp_prefix() {
        FieldMapView::UPnP(v)
    } else {
        FieldMapView::Unknown(k, v)
    }
}

/// The pair made of the key bytes and value bytes, classified by the key.
pub open spec fn classify_field(key: Seq<u8>, value: Seq<u8>) -> Option<FieldMapView> {
    if key.len() == 0 || value.len() == 0 {
        None
    } else {
        Some(classify_text(utf8_text(key), utf8_text(value)))
    }
}

/// The pair that `b` holds: split at the first separator, neither side empty.
pub open spec fn spec_parse_field(b: Seq<u8>) -> Option<FieldMapView> {
    if exists|i: int| is_first_separator(b, i) {
        let i = choose|i: int| is_first_separator(b, i);
        classify_field(b.subrange(0, i), b.subrange(i + 1, b.len() as int))
    } else {
        None
    }
}

/// Writing a well-formed pair and reading its bytes back gives the same pair.
pub proof fn lemma_field_round_trip(f: FieldMapView)
    requires
        f.wf(),
    ensures
        spec_parse_field(encode_utf8(f.format())) == Some(f),
{
    let k = f.key();
    let v = f.value();
    let colon = seq![':'];
    lemma_encode_utf8_concat(k + colon, v);
    lemma_encode_utf8_concat(k, colon);
    lemma_encode_scalar_of_ascii(':');
    assert(encode_utf8(colon) =~= seq![58u8]) by {
        assert(colon.drop_first() =~= Seq::<char>::empty());
        assert(encode_utf8(Seq::<char>::empty()) =~= Seq::<u8>::empty());
        assert((':' as u32) as u8 == 58u8);
        assert(colon[0] == ':');
    }
    let kb = encode_utf8(k);
    let vb = encode_utf8(v);
    let b = encode_utf8(f.format());
    assert(b =~= kb + seq![58u8] + vb);
    assert(!k.contains(':')) by {
        if !(f is Unknown) {
            if k.contains(':') {
                let j = choose|j: int| 0 <= j < k.len() && k[j] == ':';
                assert(k[j] != ':');
            }
        }
    }
    lemma_encode_utf8_excludes(k, ':');
    assert(k.len() > 0);
    lemma_encode_utf8_nonempty(k);
    lemma_encode_utf8_nonempty(v);
    let i = kb.len() as int;
    assert(is_first_separator(b, i)) by {
        assert forall|j: int| 0 <= j < i implies b[j] != PAIR_SEPARATOR by {
            assert(b[j] == kb[j]);
        }
    }
    let c = choose|c: int| is_first_separator(b, c);
    assert(c == i);
    assert(b.subrange(0, i) =~= kb);
    assert(b.subrange(i + 1, b.len() as int) =~= vb);
    encode_utf8_valid_utf8(k);
    encode_utf8_valid_utf8(v);
    encode_utf8_decode_utf8(k);
    encode_utf8_decode_utf8(v);
    assert(upnp_prefix() != uuid_prefix()) by {
        assert(upnp_prefix()[1] != uuid_prefix()[1]);
    }
    assert(urn_prefix() != uuid_prefix()) by {
        assert(urn_prefix().len() != uuid_prefix().len());
    }
    assert(upnp_prefix() != urn_prefix()) by {
        assert(upnp_prefix().len() != urn_prefix().len());
    }
}

/// Returns whether the key is the uuid key.
fn matches_uuid_key(key: &String) -> (r: bool)
    ensures
        r == (key@ == uuid_prefix()),
{
    proof {
        reveal_strlit("uuid");
        assert("uuid"@ =~= uuid_prefix());
    }
    *key == String::from_str("uuid")
}

/// Returns whether the key is the urn key.
fn matches_urn_key(key: &String) -> (r: bool)
    ensures
        r == (key@ == urn_prefix()),
{
    proof {
        reveal_strlit("urn");
        assert("urn"@ =~= urn_prefix());
    }
    *key == String::from_str("urn")
}

/// Returns whether the key is the upnp key.
fn matches_upnp_key(key: &String) -> (r: bool)
    ensures
        r == (key@ == upnp_prefix()),
{
    proof {
        reveal_strlit("upnp");
        assert("upnp"@ =~= upnp_prefix());
    }
    *key == String::from_str("upnp")
}

impl FieldMap {
    /// Breaks a field up into a single key and single value which are
    /// separated by a colon and neither of which are empty.
    ///
    /// Separation will occur at the first colon encountered.
    pub fn new(value: &str) -> (r: Option<FieldMap>)
        ensures
            opt_field_view(r) == spec_parse_field(encode_utf8(value@)),
            r matches Some(f) ==> f@.value().len() > 0 && f@.key().len() > 0,
    {
        FieldMap::parse_bytes(value.as_bytes())
    }

    /// Breaks a field up into a single key and single value which are
    /// separated by a colon and neither of which are empty.
    ///
    /// Separation will occur at the first colon encountered.
    pub fn parse_bytes(field: &[u8]) -> (r: Option<FieldMap>)
        ensures
            opt_field_view(r) == spec_parse_field(field@),
            r matches Some(f) ==> f@.value().len() > 0 && f@.key().len() > 0,
    {
        let mut i: usize = 0;
        while i < field.len()
            invariant
                i <= field@.len(),
                forall|j: int| 0 <= j < i ==> field@[j] != PAIR_SEPARATOR,
            ensures
                i <= field@.len(),
                forall|j: int| 0 <= j < i ==> field@[j] != PAIR_SEPARATOR,
                i < field@.len() ==> field@[i as int] == PAIR_SEPARATOR,
            decreases field@.len() - i,
        {
            if field[i] == PAIR_SEPARATOR {
                break;
            }
            i = i + 1;
        }
        if i == field.len() {
            assert(!exists|k: int| is_first_separator(field@, k));
            return None;
        }
        proof {
            assert(is_first_separator(field@, i as int));
            let c = choose|k: int| is_first_separator(field@, k);
            assert(c == i as int);
        }
        if i == 0 || i + 1 == field.len() {
            return None;
        }
        let key = utf8_lossy(vstd::slice::slice_subrange(field, 0, i));
        let value = utf8_lossy(vstd::slice::slice_subrange(field, i + 1, field.len()));
        assert(key@.len() > 0 && value@.len() > 0);
        Some(FieldMap::from_key_value(key, value))
    }

    /// The pair that a key and a value make: a known key, compared exactly,
    /// picks its variant; any other key is kept as it is.
    pub fn from_key_value(key: String, value: String) -> (r: FieldMap)
        ensures
            r@ == classify_text(key@, value@),
    {
        if matches_uuid_key(&key) {
            FieldMap::UUID(value)
        } else if matches_urn_key(&key) {
            FieldMap::URN(value)
        } else if matches_upnp_key(&key) {
            FieldMap::UPnP(value)
        } else {
            FieldMap::Unknown(key, value)
        }
    }

    pub fn upnp(value: &str) -> (r: FieldMap)
        ensures
            r@ == FieldMapView::UPnP(value@),
    {
        FieldMap::UPnP(String::from_str(value))
    }

    pub fn uuid(value: &str) -> (r: FieldMap)
        ensures
            r@ == FieldMapView::UUID(value@),
    {
        FieldMap::UUID(String::from_str(value))
    }

    pub fn urn(value: &str) -> (r: FieldMap)
        ensures
            r@ == FieldMapView::URN(value@),
    {
        FieldMap::URN(String::from_str(value))
    }

    pub fn unknown(key: &str, value: &str) -> (r: FieldMap)
        ensures
            r@ == FieldMapView::Unknown(key@, value@),
    {
        FieldMap::Unknown(String::from_str(key), String::from_str(value))
    }

    /// The wire form `<key>:<value>`.
    pub fn to_string(&self) -> (r: String)
        ensures
            r@ == self@.format(),
    {
        proof {
            reveal_strlit("upnp:");
            reveal_strlit("uuid:");
            reveal_strlit("urn:");
            reveal_strlit(":");
        }
        match self {
            FieldMap::UPnP(v) => {
                let mut s = String::from_str("upnp:");
                s.append(v.as_str());
                s
            },
            FieldMap::UUID(v) => {
                let mut s = String::from_str("uuid:");
                s.append(v.as_str());
                s
            },
            FieldMap::URN(v) => {
                let mut s = String::from_str("urn:");
                s.append(v.as_str());
                s
            },
            FieldMap::Unknown(k, v) => {
                let mut s = String::from_str(k.as_str());
                s.append(":");
                s.append(v.as_str());
                s
            },
        }
    }
}

} // verus!
