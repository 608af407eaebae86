//! Byte and text primitives shared by the header parsers.

use vstd::prelude::*;
use vstd::utf8::*;

verus! {

/// An ASCII decimal digit.
pub open spec fn is_digit(b: u8) -> bool {
    48 <= b <= 57
}

pub open spec fn all_digits(s: Seq<u8>) -> bool {
    forall|i: int| 0 <= i < s.len() ==> is_digit(#[trigger] s[i])
}

/// The value of a string of decimal digits, most significant first.
pub open spec fn digits_value(s: Seq<u8>) -> nat
    decreases s.len(),
{
    if s.len() == 0 {
        0
    } else {
        digits_value(s.drop_last()) * 10 + (s.last() - 48) as nat
    }
}

/// `s` is one or more decimal digits.
pub open spec fn is_decimal(s: Seq<u8>) -> bool {
    s.len() > 0 && all_digits(s)
}

/// The digits of an unsigned number as written on the wire: an optional `+`
/// may lead.
pub open spec fn unsigned_digits(s: Seq<u8>) -> Seq<u8> {
    if s.len() > 0 && s[0] == 43u8 {
        s.drop_first()
    } else {
        s
    }
}

/// The unsigned number written in `s`, if it is one and does not exceed `max`.
pub open spec fn spec_parse_unsigned(s: Seq<u8>, max: nat) -> Option<nat> {
    let d = unsigned_digits(s);
    if is_decimal(d) && digits_value(d) <= max {
        Some(digits_value(d))
    } else {
        None
    }
}

/// The shortest decimal form of `n`.
pub open spec fn decimal_of(n: nat) -> Seq<u8>
    decreases n,
{
    if n < 10 {
        seq![(48 + n) as u8]
    } else {
        decimal_of(n / 10).push((48 + n % 10) as u8)
    }
}

proof fn lemma_digits_value_prefix(s: Seq<u8>, j: int, k: int)
    requires
        all_digits(s),
        0 <= j <= k <= s.len(),
    ensures
        digits_value(s.subrange(0, j)) <= digits_value(s.subrange(0, k)),
    decreases k - j,
{
    if j < k {
        lemma_digits_value_prefix(s, j, k - 1);
        assert(s.subrange(0, k).drop_last() =~= s.subrange(0, k - 1));
    }
}

/// Reads the digits `s[start..]` as a number no greater than `max`.
fn parse_digits(s: &[u8], start: usize, max: u64) -> (r: Option<u64>)
    requires
        start <= s@.len(),
        max <= u32::MAX,
    ensures
        r == (if is_decimal(s@.subrange(start as int, s@.len() as int)) && digits_value(
            s@.subrange(start as int, s@.len() as int),
        ) <= max {
            Some(digits_value(s@.subrange(start as int, s@.len() as int)) as u64)
        } else {
            None::<u64>
        }),
{
    let ghost t = s@.subrange(start as int, s@.len() as int);
    if start == s.len() {
        return None;
    }
    let mut acc: u64 = 0;
    let mut i: usize = start;
    while i < s.len()
        invariant
            start <= i <= s@.len(),
            t == s@.subrange(start as int, s@.len() as int),
            all_digits(t.subrange(0, i - start)),
            acc == digits_value(t.subrange(0, i - start)),
            acc <= max,
            max <= u32::MAX,
        decreases s@.len() - i,
    {
        let b = s[i];
        if b < 48 || b > 57 {
            assert(!is_digit(t[i - start]));
            return None;
        }
        let next: u64 = acc * 10 + (b - 48) as u64;
        assert(t.subrange(0, i + 1 - start).drop_last() =~= t.subrange(0, i - start));
        if next > max {
            proof {
                if all_digits(t) {
                    lemma_digits_value_prefix(t, i + 1 - start, t.len() as int);
                    assert(t.subrange(0, t.len() as int) =~= t);
                }
            }
            return None;
        }
        acc = next;
        i = i + 1;
    }
    assert(t.subrange(0, t.len() as int) =~= t);
    Some(acc)
}

/// Reads an unsigned decimal number, with an optional leading `+`, that is
/// no greater than `max`.
pub fn parse_unsigned(s: &[u8], max: u64) -> (r: Option<u64>)
    requires
        max <= u32::MAX,
    ensures
        r matches Some(v) ==> spec_parse_unsigned(s@, max as nat) == Some(v as nat),
        r is None ==> spec_parse_unsigned(s@, max as nat) is None,
{
    let start: usize = if s.len() > 0 && s[0] == 43u8 { 1 } else { 0 };
    assert(unsigned_digits(s@) =~= s@.subrange(start as int, s@.len() as int));
    parse_digits(s, start, max)
}

/// The number written in `s` as a signed 32-bit integer that is not negative.
/// A leading `-` is accepted only before a zero value.
pub open spec fn spec_parse_nonnegative_i32(s: Seq<u8>) -> Option<nat> {
    if s.len() > 0 && s[0] == 45u8 {
        let d = s.drop_first();
        if is_decimal(d) && digits_value(d) == 0 {
            Some(0)
        } else {
            None
        }
    } else {
        spec_parse_unsigned(s, 0x7fff_ffff)
    }
}

/// Reads a signed 32-bit decimal number and keeps it only when it is not
/// negative.
pub fn parse_nonnegative_i32(s: &[u8]) -> (r: Option<u32>)
    ensures
        r matches Some(v) ==> spec_parse_nonnegative_i32(s@) == Some(v as nat),
        r is None ==> spec_parse_nonnegative_i32(s@) is None,
{
    if s.len() > 0 && s[0] == 45u8 {
        assert(s@.drop_first() =~= s@.subrange(1, s@.len() as int));
        match parse_digits(s, 1, 0) {
            Some(_) => Some(0),
            None => None,
        }
    } else {
        match parse_unsigned(s, 0x7fff_ffff) {
            Some(v) => Some(v as u32),
            None => None,
        }
    }
}

/// Writes `n` in decimal, without leading zeros.
pub fn decimal_bytes(n: u64) -> (r: Vec<u8>)
    ensures
        r@ == decimal_of(n as nat),
    decreases n,
{
    if n < 10 {
        let mut v: Vec<u8> = Vec::new();
        v.push((48 + n) as u8);
        assert(v@ =~= seq![(48 + n) as u8]);
        v
    } else {
        let mut v = decimal_bytes(n / 10);
        v.push((48 + n % 10) as u8);
        v
    }
}

/// The decimal form of a number reads back as that number.
pub proof fn lemma_decimal_of(n: nat)
    ensures
        is_decimal(decimal_of(n)),
        digits_value(decimal_of(n)) == n,
        is_digit(decimal_of(n)[0]),
    decreases n,
{
    if n < 10 {
        assert(decimal_of(n).drop_last() =~= Seq::<u8>::empty());
        assert(digits_value(Seq::<u8>::empty()) == 0);
    } else {
        lemma_decimal_of(n / 10);
        let s = decimal_of(n);
        assert(s.drop_last() =~= decimal_of(n / 10));
        assert(s.last() == (48 + n % 10) as u8);
        assert(((48 + n % 10) as u8) as nat == 48 + n % 10);
        assert(n == (n / 10) * 10 + n % 10);
        assert forall|i: int| 0 <= i < s.len() implies is_digit(#[trigger] s[i]) by {
            if i < s.len() - 1 {
                assert(s[i] == decimal_of(n / 10)[i]);
            }
        }
    }
}

/// A number no greater than `max`, written in decimal, parses back to itself.
pub proof fn lemma_parse_unsigned_decimal(n: nat, max: nat)
    requires
        n <= max,
    ensures
        spec_parse_unsigned(decimal_of(n), max) == Some(n),
{
    lemma_decimal_of(n);
}

/// A non-negative signed 32-bit number, written in decimal, parses back to itself.
pub proof fn lemma_parse_nonnegative_i32_decimal(n: nat)
    requires
        n <= 0x7fff_ffff,
    ensures
        spec_parse_nonnegative_i32(decimal_of(n)) == Some(n),
{
    lemma_decimal_of(n);
}

/// The text that `String::from_utf8_lossy` makes of `b`.
pub uninterp spec fn lossy_utf8(b: Seq<u8>) -> Seq<char>;

/// The text of `b`: its decoding when it is valid UTF-8, else the text in
/// which `String::from_utf8_lossy` marks each invalid sequence.
pub open spec fn utf8_text(b: Seq<u8>) -> Seq<char> {
    if valid_utf8(b) {
        decode_utf8(b)
    } else {
        lossy_utf8(b)
    }
}

/// Relies on `String::from_utf8_lossy`: the result depends on the bytes alone,
/// bytes that are valid UTF-8 decode unchanged, and each invalid sequence
/// becomes U+FFFD, so bytes that are not empty give text that is not empty.
#[verifier::external_body]
pub(crate) fn utf8_lossy(b: &[u8]) -> (r: String)
    ensures
        r@ == utf8_text(b@),
        !valid_utf8(b@) ==> r@ == lossy_utf8(b@),
        !valid_utf8(b@) && b@.len() > 0 ==> r@.len() > 0,
{
    String::from_utf8_lossy(b).into_owned()
}

/// Relies on `String::from_utf8`: it accepts exactly the valid UTF-8 byte
/// strings, and decodes them.
#[verifier::external_body]
pub(crate) fn utf8_decode(b: Vec<u8>) -> (r: Option<String>)
    ensures
        r is Some <==> valid_utf8(b@),
        r matches Some(s) ==> s@ == decode_utf8(b@),
{
    String::from_utf8(b).ok()
}

/// The UTF-8 bytes of a string.
pub fn string_bytes(s: &String) -> (r: Vec<u8>)
    ensures
        r@ == encode_utf8(s@),
{
    vstd::slice::slice_to_vec(s.as_str().as_bytes())
}

/// Encoding a concatenation concatenates the encodings.
pub proof fn lemma_encode_utf8_concat(a: Seq<char>, b: Seq<char>)
    ensures
        encode_utf8(a + b) == encode_utf8(a) + encode_utf8(b),
    decreases a.len(),
{
    if a.len() == 0 {
        assert(a + b =~= b);
        assert(encode_utf8(a) =~= Seq::<u8>::empty());
        assert(encode_utf8(a) + encode_utf8(b) =~= encode_utf8(b));
    } else {
        lemma_encode_utf8_concat(a.drop_first(), b);
        assert((a + b).drop_first() =~= a.drop_first() + b);
        assert((a + b)[0] == a[0]);
        let e = encode_scalar(a[0] as u32);
        assert(e + (encode_utf8(a.drop_first()) + encode_utf8(b)) =~= (e + encode_utf8(
            a.drop_first(),
        )) + encode_utf8(b));
    }
}

proof fn lemma_high_bit(x: u8)
    ensures
        (0x80u8 | x) >= 128,
        (0xC0u8 | x) >= 128,
        (0xE0u8 | x) >= 128,
        (0xF0u8 | x) >= 128,
{
    assert((0x80u8 | x) >= 128) by (bit_vector);
    assert((0xC0u8 | x) >= 128) by (bit_vector);
    assert((0xE0u8 | x) >= 128) by (bit_vector);
    assert((0xF0u8 | x) >= 128) by (bit_vector);
}

/// An ASCII byte occurs in the encoding of a character only when it is that
/// character.
pub proof fn lemma_encode_scalar_ascii(c: char, a: u8, j: int)
    requires
        a < 128,
        0 <= j < encode_scalar(c as u32).len(),
        encode_scalar(c as u32)[j] == a,
    ensures
        c as u32 == a as u32,
        encode_scalar(c as u32).len() == 1,
{
    let v = c as u32;
    if has_width_1_encoding(v) {
        assert((v & 0x7F) as u8 == v as u8 && (v as u8) as u32 == v) by (bit_vector)
            requires
                v <= 0x7F,
        ;
    } else if has_width_2_encoding(v) {
        lemma_high_bit(((v >> 6) & 0x1F) as u8);
        lemma_high_bit((v & 0x3F) as u8);
    } else if has_width_3_encoding(v) {
        lemma_high_bit(((v >> 12) & 0x0F) as u8);
        lemma_high_bit(((v >> 6) & 0x3F) as u8);
        lemma_high_bit((v & 0x3F) as u8);
    } else {
        lemma_high_bit(((v >> 18) & 0x7) as u8);
        lemma_high_bit(((v >> 12) & 0x3F) as u8);
        lemma_high_bit(((v >> 6) & 0x3F) as u8);
        lemma_high_bit((v & 0x3F) as u8);
    }
}

/// The encoding of an ASCII character is that one byte.
pub proof fn lemma_encode_scalar_of_ascii(c: char)
    requires
        (c as u32) < 128,
    ensures
        encode_scalar(c as u32) == seq![(c as u32) as u8],
{
    let v = c as u32;
    assert((v & 0x7F) as u8 == v as u8) by (bit_vector)
        requires
            v <= 0x7F,
    ;
}

/// A text without the ASCII character `c` has no byte `c` in its encoding.
pub proof fn lemma_encode_utf8_excludes(s: Seq<char>, c: char)
    requires
        (c as u32) < 128,
        !s.contains(c),
    ensures
        forall|j: int|
            0 <= j < encode_utf8(s).len() ==> #[trigger] encode_utf8(s)[j] != (c as u32) as u8,
    decreases s.len(),
{
    if s.len() > 0 {
        let rest = s.drop_first();
        assert(!rest.contains(c)) by {
            if rest.contains(c) {
                let k = choose|k: int| 0 <= k < rest.len() && rest[k] == c;
                assert(s[k + 1] == c);
            }
        }
        lemma_encode_utf8_excludes(rest, c);
        let e = encode_scalar(s[0] as u32);
        assert forall|j: int| 0 <= j < encode_utf8(s).len() implies #[trigger] encode_utf8(s)[j]
            != (c as u32) as u8 by {
            if j < e.len() {
                if e[j] == (c as u32) as u8 {
                    lemma_encode_scalar_ascii(s[0], (c as u32) as u8, j);
                    assert(s[0] as u32 == c as u32);
                    assert(s.contains(c)) by {
                        char_u32_cast(s[0], c as u32);
                        char_u32_cast(c, c as u32);
                        assert(s[0] == c);
                    }
                }
            } else {
                assert(encode_utf8(s)[j] == encode_utf8(rest)[j - e.len()]);
            }
        }
    }
}

/// A text that is not empty has an encoding that is not empty.
pub proof fn lemma_encode_utf8_nonempty(s: Seq<char>)
    requires
        s.len() > 0,
    ensures
        encode_utf8(s).len() > 0,
{
    assert(encode_scalar(s[0] as u32).len() > 0);
}

} // verus!
