use vstd::prelude::*;
use vstd::string::*;
use vstd::utf8::*;

use crate::error::SSDPError;
use crate::field::{
    lemma_field_round_trip, opt_field_view, spec_parse_field, FieldMap, FieldMapView, PAIR_SEPARATOR,
};
use crate::header::SSDPHeader;
use crate::text::{
    lemma_encode_scalar_ascii, lemma_encode_scalar_of_ascii, lemma_encode_utf8_concat,
    lemma_encode_utf8_nonempty, string_bytes,
};

verus! {

/// `b[p]` and `b[p + 1]` are both separators: the `::` between two pairs.
pub open spec fn is_pair_break(b: Seq<u8>, p: int) -> bool {
    0 <= p && p + 1 < b.len() && b[p] == PAIR_SEPARATOR && b[p + 1] == PAIR_SEPARATOR
}

/// `p` is the position of the first `::` in `b`.
pub open spec fn is_first_pair_break(b: Seq<u8>, p: int) -> bool {
    is_pair_break(b, p) && forall|q: int| 0 <= q < p ==> !is_pair_break(b, q)
}

/// `s` without up to `n` trailing separators.
pub open spec fn strip_separators(s: Seq<u8>, n: nat) -> Seq<u8>
    decreases n,
{
    if n > 0 && s.len() > 0 && s.last() == PAIR_SEPARATOR {
        strip_separators(s.drop_last(), (n - 1) as nat)
    } else {
        s
    }
}

/// The bytes of the first pair and, when there is one after the first `::`,
/// of the second. Up to two separators that end the first part are dropped.
pub open spec fn spec_partition_pairs(b: Seq<u8>) -> Option<(Seq<u8>, Option<Seq<u8>>)> {
    let (first_raw, second) = if exists|p: int| is_first_pair_break(b, p) {
        let p = choose|p: int| is_first_pair_break(b, p);
        (b.subrange(0, p), b.subrange(p + 2, b.len() as int))
    } else {
        (b, Seq::<u8>::empty())
    };
    let first = strip_separators(first_raw, 2);
    if first.len() == 0 {
        None
    } else if second.len() == 0 {
        Some((first, None))
    } else {
        Some((first, Some(second)))
    }
}

/// Splits a header value at its first `::` into the raw bytes of two pairs.
fn partition_pairs(b: &[u8]) -> (r: Option<(Vec<u8>, Option<Vec<u8>>)>)
    ensures
        match (r, spec_partition_pairs(b@)) {
            (None, None) => true,
            (Some((f, None)), Some((sf, None))) => f@ == sf,
            (Some((f, Some(s))), Some((sf, Some(ss)))) => f@ == sf && s@ == ss,
            _ => false,
        },
{
    let mut p: usize = 0;
    let mut found = false;
    while p < b.len() && p + 1 < b.len()
        invariant_except_break
            !found,
        invariant
            forall|q: int| 0 <= q < p ==> !is_pair_break(b@, q),
        ensures
            found ==> is_first_pair_break(b@, p as int),
            !found ==> forall|q: int| 0 <= q ==> !is_pair_break(b@, q),
        decreases b@.len() - p,
    {
        if b[p] == PAIR_SEPARATOR && b[p + 1] == PAIR_SEPARATOR {
            found = true;
            break;
        }
        p = p + 1;
    }
    let ghost pair = if exists|q: int| is_first_pair_break(b@, q) {
        let q = choose|q: int| is_first_pair_break(b@, q);
        (b@.subrange(0, q), b@.subrange(q + 2, b@.len() as int))
    } else {
        (b@, Seq::<u8>::empty())
    };
    let (mut first, second) = if found {
        assert(is_pair_break(b@, p as int));
        let n = b.len();
        assert(p + 2 <= n);
        proof {
            let q = choose|q: int| is_first_pair_break(b@, q);
            assert(q == p as int) by {
                if q < p as int {
                    assert(!is_pair_break(b@, q));
                } else if q > p as int {
                    assert(!is_pair_break(b@, p as int));
                }
            }
        }
        (
            vstd::slice::slice_to_vec(vstd::slice::slice_subrange(b, 0, p)),
            vstd::slice::slice_to_vec(vstd::slice::slice_subrange(b, p + 2, n)),
        )
    } else {
        assert(!exists|q: int| is_first_pair_break(b@, q));
        let e: Vec<u8> = Vec::new();
        (vstd::slice::slice_to_vec(b), e)
    };
    assert(first@ == pair.0 && second@ == pair.1);
    let ghost first_raw = first@;
    let mut k: usize = 0;
    while k < 2
        invariant
            k <= 2,
            strip_separators(first@, (2 - k) as nat) == strip_separators(first_raw, 2),
        decreases 2 - k,
    {
        let n = first.len();
        if n > 0 && first[n - 1] == PAIR_SEPARATOR {
            let ghost before = first@;
            first.pop();
            assert(first@ == before.drop_last());
            k = k + 1;
        } else {
            proof {
                if k < 2 {
                    assert(strip_separators(first@, (2 - k) as nat) == first@);
                    assert(strip_separators(first@, (2 - k - 1) as nat) == first@) by {
                        if 2 - k - 1 > 0 {
                            assert(strip_separators(first@, (2 - k - 1) as nat) == first@);
                        }
                    }
                }
            }
            k = 2;
        }
    }
    assert(first@ == strip_separators(first_raw, 2));
    if first.len() == 0 {
        None
    } else if second.len() == 0 {
        Some((first, None))
    } else {
        Some((first, Some(second)))
    }
}

/// Represents a header which specifies a unique service name.
///
/// Field value can hold up to two `FieldMap`'s.
#[derive(Clone, PartialEq, Eq, Hash, Debug)]
pub struct USN(pub FieldMap, pub Option<FieldMap>);

impl View for USN {
    type V = (FieldMapView, Option<FieldMapView>);

    open spec fn view(&self) -> (FieldMapView, Option<FieldMapView>) {
        (self.0@, opt_field_view(self.1))
    }
}

/// The text of a unique service name: one pair, or two joined by `::`.
pub open spec fn usn_format(v: (FieldMapView, Option<FieldMapView>)) -> Seq<char> {
    match v.1 {
        None => v.0.format(),
        Some(second) => v.0.format() + seq![':', ':'] + second.format(),
    }
}

/// No two separators stand side by side in `x`.
pub open spec fn no_double_colon(x: Seq<char>) -> bool {
    forall|i: int| 0 <= i && i + 1 < x.len() ==> !(x[i] == ':' && #[trigger] x[i + 1] == ':')
}

proof fn lemma_encode_scalar_colon(c: char)
    ensures
        c == ':' ==> encode_scalar(c as u32) == seq![PAIR_SEPARATOR],
        c != ':' ==> forall|j: int|
            0 <= j < encode_scalar(c as u32).len() ==> #[trigger] encode_scalar(c as u32)[j]
                != PAIR_SEPARATOR,
        encode_scalar(c as u32).len() > 0,
{
    if c == ':' {
        lemma_encode_scalar_of_ascii(c);
    } else {
        assert forall|j: int| 0 <= j < encode_scalar(c as u32).len() implies #[trigger] encode_scalar(
            c as u32,
        )[j] != PAIR_SEPARATOR by {
            if encode_scalar(c as u32)[j] == PAIR_SEPARATOR {
                lemma_encode_scalar_ascii(c, PAIR_SEPARATOR, j);
                char_u32_cast(c, c as u32);
                char_u32_cast(':', c as u32);
            }
        }
    }
}

/// Text without `::` encodes to bytes without `::`, and a separator begins or
/// ends the bytes exactly when one begins or ends the text.
proof fn lemma_encode_no_pair_break(x: Seq<char>)
    requires
        no_double_colon(x),
    ensures
        forall|p: int| !is_pair_break(encode_utf8(x), p),
        x.len() > 0 ==> (encode_utf8(x)[0] == PAIR_SEPARATOR <==> x[0] == ':'),
        x.len() > 0 ==> (encode_utf8(x).last() == PAIR_SEPARATOR <==> x.last() == ':'),
    decreases x.len(),
{
    if x.len() > 0 {
        let c = x[0];
        let rest = x.drop_first();
        assert(no_double_colon(rest)) by {
            assert forall|i: int| 0 <= i && i + 1 < rest.len() implies !(rest[i] == ':'
                && #[trigger] rest[i + 1] == ':') by {
                assert(x[i + 1] == rest[i] && x[i + 2] == rest[i + 1]);
            }
        }
        lemma_encode_no_pair_break(rest);
        lemma_encode_scalar_colon(c);
        let e = encode_scalar(c as u32);
        let r = encode_utf8(rest);
        let enc = encode_utf8(x);
        assert(enc == e + r);
        if rest.len() > 0 {
            lemma_encode_utf8_nonempty(rest);
            assert(x.last() == rest.last());
        }
        assert forall|p: int| !is_pair_break(enc, p) by {
            if is_pair_break(enc, p) {
                if p + 1 < e.len() {
                    assert(e[p] == PAIR_SEPARATOR && e[p + 1] == PAIR_SEPARATOR);
                } else if p < e.len() {
                    assert(e[p] == PAIR_SEPARATOR);
                    assert(c == ':');
                    assert(r[0] == enc[p + 1]);
                    assert(rest.len() > 0);
                    assert(rest[0] == ':');
                    assert(x[1] == ':');
                } else {
                    assert(enc[p] == r[p - e.len()] && enc[p + 1] == r[p + 1 - e.len()]);
                    assert(is_pair_break(r, p - e.len()));
                }
            }
        }
    }
}

/// The bytes of a well-formed first pair hold no `::`, are not empty, and do
/// not end with a separator, when its value neither begins nor ends with a
/// separator nor holds `::`.
proof fn lemma_first_pair_bytes(a: FieldMapView)
    requires
        a.wf(),
        no_double_colon(a.value()),
        a.value()[0] != ':',
        a.value().last() != ':',
    ensures
        forall|p: int| !is_pair_break(encode_utf8(a.format()), p),
        encode_utf8(a.format()).len() > 0,
        encode_utf8(a.format()).last() != PAIR_SEPARATOR,
{
    let key = a.key();
    let value = a.value();
    let text = a.format();
    assert(!key.contains(':')) by {
        if key.contains(':') {
            let j = choose|j: int| 0 <= j < key.len() && key[j] == ':';
            if !(a is Unknown) {
                assert(key[j] != ':');
            }
        }
    }
    assert(key.len() > 0);
    assert(no_double_colon(text)) by {
        assert forall|i: int| 0 <= i && i + 1 < text.len() implies !(text[i] == ':'
            && #[trigger] text[i + 1] == ':') by {
            if i < key.len() {
                assert(text[i] == key[i]);
                assert(key[i] != ':');
            } else if i == key.len() {
                assert(text[i + 1] == value[0]);
            } else {
                let j = i - key.len() - 1;
                assert(text[i] == value[j]);
                assert(text[i + 1] == value[j + 1]);
            }
        }
    }
    assert(text.last() == value.last());
    lemma_encode_no_pair_break(text);
    lemma_encode_utf8_nonempty(text);
}

/// A unique service name reads back from its wire form when its pairs are
/// well formed and the value of the first neither begins nor ends with a
/// separator nor holds `::` (else the first `::` would fall inside it).
pub proof fn lemma_usn_round_trip(v: (FieldMapView, Option<FieldMapView>))
    requires
        v.0.wf(),
        v.1 matches Some(s) ==> s.wf(),
        no_double_colon(v.0.value()),
        v.0.value()[0] != ':',
        v.0.value().last() != ':',
    ensures
        USN::spec_parse(seq![USN::spec_format(v)]) == Some(v),
{
    let a = v.0;
    lemma_first_pair_bytes(a);
    let text = a.format();
    let b = encode_utf8(text);
    lemma_field_round_trip(a);
    assert(strip_separators(b, 2) == b);
    let line = USN::spec_format(v);
    assert(seq![line][0] == line);
    match v.1 {
        None => {
            assert(line == b);
            assert(!exists|p: int| is_first_pair_break(b, p));
        },
        Some(second) => {
            let dc = seq![':', ':'];
            let st = second.format();
            lemma_encode_utf8_concat(text + dc, st);
            lemma_encode_utf8_concat(text, dc);
            lemma_encode_utf8_concat(seq![':'], seq![':']);
            assert(seq![':'] + seq![':'] =~= dc);
            lemma_encode_scalar_of_ascii(':');
            assert(encode_utf8(seq![':']) =~= seq![PAIR_SEPARATOR]) by {
                assert(seq![':'].drop_first() =~= Seq::<char>::empty());
                assert(encode_utf8(Seq::<char>::empty()) =~= Seq::<u8>::empty());
                assert((':' as u32) as u8 == 58u8);
            }
            let cb = encode_utf8(st);
            assert(st.len() > 0);
            lemma_encode_utf8_nonempty(st);
            lemma_field_round_trip(second);
            assert(line =~= b + seq![PAIR_SEPARATOR, PAIR_SEPARATOR] + cb);
            let p = b.len() as int;
            assert(is_first_pair_break(line, p)) by {
                assert forall|q: int| 0 <= q < p implies !is_pair_break(line, q) by {
                    if q + 1 < p {
                        assert(line[q] == b[q] && line[q + 1] == b[q + 1]);
                        assert(!is_pair_break(b, q));
                    } else {
                        assert(line[q] == b.last());
                    }
                }
            }
            let c = choose|c: int| is_first_pair_break(line, c);
            assert(c == p) by {
                if c < p {
                    assert(!is_pair_break(line, c));
                } else if c > p {
                    assert(!is_pair_break(line, p));
                }
            }
            assert(line.subrange(0, p) =~= b);
            assert(line.subrange(p + 2, line.len() as int) =~= cb);
        },
    }
}

/// A lone pair followed by `:` or by `::` reads as that pair with no second
/// one, under the same conditions as the round trip.
pub proof fn lemma_usn_trailing_separators(a: FieldMapView)
    requires
        a.wf(),
        no_double_colon(a.value()),
        a.value()[0] != ':',
        a.value().last() != ':',
    ensures
        USN::spec_parse(seq![encode_utf8(a.format()).push(PAIR_SEPARATOR)]) == Some((a, None::<FieldMapView>)),
        USN::spec_parse(seq![encode_utf8(a.format()) + seq![PAIR_SEPARATOR, PAIR_SEPARATOR]]) == Some(
            (a, None::<FieldMapView>),
        ),
{
    lemma_first_pair_bytes(a);
    let b = encode_utf8(a.format());
    lemma_field_round_trip(a);
    // one trailing separator: no `::` anywhere, and the strip removes it
    let one = b.push(PAIR_SEPARATOR);
    assert(seq![one][0] == one);
    assert forall|p: int| !is_pair_break(one, p) by {
        if is_pair_break(one, p) {
            if p + 1 < b.len() {
                assert(one[p] == b[p] && one[p + 1] == b[p + 1]);
                assert(is_pair_break(b, p));
            } else {
                assert(one[p] == b.last());
            }
        }
    }
    assert(!exists|p: int| is_first_pair_break(one, p));
    assert(one.drop_last() =~= b);
    assert(strip_separators(one, 2) == strip_separators(b, 1));
    assert(strip_separators(b, 1) == b);
    // two trailing separators: the first `::` stands right after the pair
    let two = b + seq![PAIR_SEPARATOR, PAIR_SEPARATOR];
    assert(seq![two][0] == two);
    let p = b.len() as int;
    assert(is_first_pair_break(two, p)) by {
        assert forall|q: int| 0 <= q < p implies !is_pair_break(two, q) by {
            if q + 1 < p {
                assert(two[q] == b[q] && two[q + 1] == b[q + 1]);
                assert(!is_pair_break(b, q));
            } else {
                assert(two[q] == b.last());
            }
        }
    }
    let c = choose|c: int| is_first_pair_break(two, c);
    assert(c == p) by {
        if c < p {
            assert(!is_pair_break(two, c));
        } else if c > p {
            assert(!is_pair_break(two, p));
        }
    }
    assert(two.subrange(0, p) =~= b);
    assert(two.subrange(p + 2, two.len() as int).len() == 0);
    assert(strip_separators(b, 2) == b);
}

impl USN {
    pub fn new(field: FieldMap, opt_field: Option<FieldMap>) -> (r: USN)
        ensures
            r@ == (field@, opt_field_view(opt_field)),
    {
        USN(field, opt_field)
    }
}

impl SSDPHeader for USN {
    open spec fn spec_name() -> Seq<char> {
        seq!['U', 'S', 'N']
    }

    /// Both parts must parse as pairs; the second part may be absent.
    open spec fn spec_parse(raw: Seq<Seq<u8>>) -> Option<(FieldMapView, Option<FieldMapView>)> {
        if raw.len() != 1 {
            None
        } else {
            match spec_partition_pairs(raw[0]) {
                None => None,
                Some((f, None)) => match spec_parse_field(f) {
                    Some(a) => Some((a, None)),
                    None => None,
                },
                Some((f, Some(s))) => match (spec_parse_field(f), spec_parse_field(s)) {
                    (Some(a), Some(c)) => Some((a, Some(c))),
                    _ => None,
                },
            }
        }
    }

    open spec fn spec_format(v: (FieldMapView, Option<FieldMapView>)) -> Seq<u8> {
        encode_utf8(usn_format(v))
    }

    fn header_name() -> (r: &'static str) {
        proof {
            reveal_strlit("USN");
            assert("USN"@ =~= seq!['U', 'S', 'N']);
        }
        "USN"
    }

    fn parse_header(raw: &[Vec<u8>]) -> (r: Result<USN, SSDPError>) {
        if raw.len() != 1 {
            return Err(SSDPError::InvalidHeader("USN", "Expected exactly one line"));
        }
        assert(raw.deep_view()[0] == raw@[0]@);
        match partition_pairs(raw[0].as_slice()) {
            None => Err(SSDPError::InvalidHeader("USN", "No pair")),
            Some((f, None)) => match FieldMap::parse_bytes(f.as_slice()) {
                Some(a) => Ok(USN(a, None)),
                None => Err(SSDPError::InvalidHeader("USN", "First part is not a pair")),
            },
            Some((f, Some(s))) => match FieldMap::parse_bytes(f.as_slice()) {
                Some(a) => match FieldMap::parse_bytes(s.as_slice()) {
                    Some(c) => Ok(USN(a, Some(c))),
                    None => Err(SSDPError::InvalidHeader("USN", "Second part is not a pair")),
                },
                None => Err(SSDPError::InvalidHeader("USN", "First part is not a pair")),
            },
        }
    }

    fn fmt_header(&self) -> (r: Vec<u8>) {
        let mut s = self.0.to_string();
        match &self.1 {
            Some(n) => {
                proof {
                    reveal_strlit("::");
                    assert("::"@ =~= seq![':', ':']);
                }
                s.append("::");
                s.append(n.to_string().as_str());
            },
            None => {},
        }
        string_bytes(&s)
    }
}

} // verus!
