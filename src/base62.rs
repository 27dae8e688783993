use vstd::prelude::*;

use crate::error::SnowIdError;

verus! {

/// Number of characters in the text form of an identifier.
pub const BASE62_WIDTH: usize = 11;

/// A digit of the alphabet `0-9A-Za-z`.
pub open spec fn is_base62_char(c: char) -> bool {
    ('0' <= c && c <= '9') || ('A' <= c && c <= 'Z') || ('a' <= c && c <= 'z')
}

/// The value of one base62 digit.
pub open spec fn digit_value(c: char) -> nat {
    if '0' <= c && c <= '9' {
        (c as int - '0' as int) as nat
    } else if 'A' <= c && c <= 'Z' {
        (c as int - 'A' as int + 10) as nat
    } else {
        (c as int - 'a' as int + 36) as nat
    }
}

pub open spec fn all_base62(s: Seq<char>) -> bool {
    forall|i: int| 0 <= i < s.len() ==> is_base62_char(#[trigger] s[i])
}

/// The number that a string of base62 digits denotes, most significant first.
pub open spec fn base62_value(s: Seq<char>) -> nat
    decreases s.len(),
{
    if s.len() == 0 {
        0
    } else {
        base62_value(s.drop_last()) * 62 + digit_value(s.last())
    }
}

/// `text` is the fixed-width base62 form of `id`.
pub open spec fn is_base62_encoding(text: Seq<char>, id: u64) -> bool {
    &&& text.len() == BASE62_WIDTH
    &&& all_base62(text)
    &&& base62_value(text) == id
}

/// The identifier that `text` denotes, when it is a well-formed fixed-width
/// base62 identifier.
pub open spec fn decoded_base62(text: Seq<char>) -> Option<u64> {
    if text.len() == BASE62_WIDTH && all_base62(text) && base62_value(text) <= u64::MAX {
        Some(base62_value(text) as u64)
    } else {
        None
    }
}

/// Relies on snowid::base62::encode: the digits of `id` in the alphabet
/// `0-9A-Za-z`, most significant first, with no padding; its buffer holds
/// at most 11 of them.
#[verifier::external_body]
fn encode_digits(id: u64) -> (r: String)
    ensures
        1 <= r@.len() <= BASE62_WIDTH,
        all_base62(r@),
        base62_value(r@) == id,
{
    snowid::base62::encode(id)
}

/// Relies on snowid::base62::decode: it succeeds exactly on non-empty text of
/// base62 digits whose value fits in a `u64`, and returns that value.
#[verifier::external_body]
fn decode_digits(text: &str) -> (r: Result<u64, snowid::base62::DecodeError>)
    ensures
        match r {
            Ok(v) => text@.len() > 0 && all_base62(text@) && base62_value(text@) == v,
            Err(_) => !(text@.len() > 0 && all_base62(text@) && base62_value(text@) <= u64::MAX),
        },
{
    snowid::base62::decode(text)
}

#[verifier::external_type_specification]
#[verifier::external_body]
pub struct ExDecodeError(snowid::base62::DecodeError);

proof fn lemma_leading_zeros(zeros: Seq<char>, s: Seq<char>)
    requires
        forall|i: int| 0 <= i < zeros.len() ==> #[trigger] zeros[i] == '0',
    ensures
        base62_value(zeros + s) == base62_value(s),
    decreases s.len() + zeros.len(),
{
    if s.len() == 0 {
        assert(zeros + s =~= zeros);
        if zeros.len() > 0 {
            lemma_leading_zeros(zeros.drop_last(), s);
            assert(zeros.drop_last() + s =~= zeros.drop_last());
        }
    } else {
        assert((zeros + s).drop_last() =~= zeros + s.drop_last());
        lemma_leading_zeros(zeros, s.drop_last());
    }
}

/// Renders `id` as exactly eleven base62 digits, padded on the left with
/// `'0'`, so that text order and numeric order agree.
pub fn encode_base62(id: u64) -> (r: String)
    ensures
        is_base62_encoding(r@, id),
{
    let digits = encode_digits(id);
    let n = digits.as_str().unicode_len();
    let mut out = String::new();
    let mut k: usize = 0;
    proof {
        reveal_strlit("0");
    }
    while k < BASE62_WIDTH - n
        invariant
            n == digits@.len(),
            1 <= n <= BASE62_WIDTH,
            k <= BASE62_WIDTH - n,
            out@.len() == k,
            forall|i: int| 0 <= i < k ==> #[trigger] out@[i] == '0',
            "0"@ == seq!['0'],
        decreases BASE62_WIDTH - n - k,
    {
        out.append("0");
        k = k + 1;
    }
    let ghost zeros = out@;
    out.append(digits.as_str());
    proof {
        lemma_leading_zeros(zeros, digits@);
        assert forall|i: int| 0 <= i < out@.len() implies is_base62_char(#[trigger] out@[i]) by {
            if i >= zeros.len() {
                assert(out@[i] == digits@[i - zeros.len()]);
            }
        }
    }
    out
}

/// Reads back the fixed-width base62 form of an identifier; fails on text of
/// another length, with a character outside the alphabet, or too large for
/// 64 bits.
pub fn decode_base62(text: &str) -> (r: Result<u64, SnowIdError>)
    ensures
        match decoded_base62(text@) {
            Some(v) => r == Ok::<u64, SnowIdError>(v),
            None => r matches Err(SnowIdError::InvalidBase62 { text: t }) && t@ == text@,
        },
{
    if text.unicode_len() != BASE62_WIDTH {
        return Err(SnowIdError::InvalidBase62 { text: String::from_str(text) });
    }
    match decode_digits(text) {
        Ok(v) => Ok(v),
        Err(_) => Err(SnowIdError::InvalidBase62 { text: String::from_str(text) }),
    }
}

/// `a` comes before `b` in dictionary order; both have the same length.
pub open spec fn text_less(a: Seq<char>, b: Seq<char>) -> bool
    decreases a.len(),
{
    if a.len() == 0 || b.len() != a.len() {
        false
    } else {
        text_less(a.drop_last(), b.drop_last()) || (a.drop_last() == b.drop_last() && a.last()
            < b.last())
    }
}

proof fn lemma_digit_order(c: char, d: char)
    requires
        is_base62_char(c),
        is_base62_char(d),
    ensures
        digit_value(c) < 62,
        digit_value(c) < digit_value(d) <==> c < d,
        digit_value(c) == digit_value(d) <==> c == d,
{
}

proof fn lemma_value_order(a: Seq<char>, b: Seq<char>)
    requires
        a.len() == b.len(),
        all_base62(a),
        all_base62(b),
    ensures
        base62_value(a) < base62_value(b) ==> text_less(a, b),
        base62_value(a) == base62_value(b) ==> a == b,
    decreases a.len(),
{
    if a.len() == 0 {
        assert(a =~= b);
    } else {
        let pa = a.drop_last();
        let pb = b.drop_last();
        assert(is_base62_char(a[a.len() - 1]));
        assert(is_base62_char(b[b.len() - 1]));
        lemma_digit_order(a.last(), b.last());
        lemma_digit_order(b.last(), a.last());
        lemma_value_order(pa, pb);
        let va = base62_value(pa);
        let vb = base62_value(pb);
        let da = digit_value(a.last());
        let db = digit_value(b.last());
        assert(base62_value(a) == va * 62 + da);
        assert(base62_value(b) == vb * 62 + db);
        if va < vb {
            assert(va * 62 + da < vb * 62 + db) by (nonlinear_arith)
                requires
                    va < vb,
                    da < 62,
            ;
        } else if va > vb {
            assert(va * 62 + da > vb * 62 + db) by (nonlinear_arith)
                requires
                    va > vb,
                    db < 62,
            ;
        } else {
            assert(pa == pb);
            if base62_value(a) == base62_value(b) {
                assert(a.last() == b.last());
                assert(a =~= pa.push(a.last()));
                assert(b =~= pb.push(b.last()));
            }
        }
    }
}

/// Text forms sort as the identifiers they stand for: the smaller
/// identifier has the text that comes first in dictionary order.
pub proof fn text_order_matches_numeric_order(x: u64, y: u64, a: Seq<char>, b: Seq<char>)
    requires
        is_base62_encoding(a, x),
        is_base62_encoding(b, y),
        x < y,
    ensures
        text_less(a, b),
{
    lemma_value_order(a, b);
}

/// Decoding the text form of an identifier gives the identifier back.
pub proof fn base62_round_trip(id: u64, text: Seq<char>)
    requires
        is_base62_encoding(text, id),
    ensures
        decoded_base62(text) == Some(id),
{
}

} // verus!
