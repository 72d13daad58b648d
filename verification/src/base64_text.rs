//! Base64 text (RFC 4648), as the `base64` crate writes and reads it.
use base64::engine::general_purpose::{STANDARD, URL_SAFE_NO_PAD};
use base64::Engine;
use vstd::prelude::*;

verus! {

/// The error of a failed base64 decoding.
#[verifier::external_type_specification]
#[verifier::external_body]
pub struct ExDecodeError(base64::DecodeError);

/// Byte `i` of `bytes`, with zeros past the end.
pub open spec fn byte_or_zero(bytes: Seq<u8>, i: int) -> int {
    if 0 <= i < bytes.len() {
        bytes[i] as int
    } else {
        0
    }
}

/// The `i`-th group of six bits of `bytes`, most significant bit first.
pub open spec fn sextet(bytes: Seq<u8>, i: int) -> int {
    let first = 3 * (i / 4);
    let b0 = byte_or_zero(bytes, first);
    let b1 = byte_or_zero(bytes, first + 1);
    let b2 = byte_or_zero(bytes, first + 2);
    if i % 4 == 0 {
        b0 / 4
    } else if i % 4 == 1 {
        (b0 % 4) * 16 + b1 / 16
    } else if i % 4 == 2 {
        (b1 % 16) * 4 + b2 / 64
    } else {
        b2 % 64
    }
}

/// The number of six bit groups that `n` bytes fill, the last one padded with zero bits.
pub open spec fn sextet_count(n: nat) -> nat {
    ((8 * n + 5) / 6) as nat
}

/// The character for the six bit value `v`; `c62` and `c63` stand for the two largest values.
pub open spec fn alphabet(v: int, c62: char, c63: char) -> char {
    if v < 26 {
        ('A' as int + v) as char
    } else if v < 52 {
        ('a' as int + (v - 26)) as char
    } else if v < 62 {
        ('0' as int + (v - 52)) as char
    } else if v == 62 {
        c62
    } else {
        c63
    }
}

/// Base64 text of `bytes` without padding, over the alphabet that ends in `c62` and `c63`.
pub open spec fn unpadded(bytes: Seq<u8>, c62: char, c63: char) -> Seq<char> {
    Seq::new(sextet_count(bytes.len()), |i: int| alphabet(sextet(bytes, i), c62, c63))
}

/// Base64 text in the URL safe alphabet, without padding.
pub open spec fn base64_url(bytes: Seq<u8>) -> Seq<char> {
    unpadded(bytes, '-', '_')
}

/// Base64 text in the standard alphabet, padded with `=` to a multiple of four characters.
pub open spec fn base64_standard(bytes: Seq<u8>) -> Seq<char> {
    unpadded(bytes, '+', '/') + Seq::new(((3 - bytes.len() % 3) % 3) as nat, |i: int| '=')
}

/// The error that `base64`'s standard engine reports for `text`, which is not the
/// base64 text of any bytes.
pub uninterp spec fn standard_decode_error(text: Seq<char>) -> base64::DecodeError;

/// Calls `Engine::encode` of `base64::engine::general_purpose::URL_SAFE_NO_PAD`.
/// Trusted: the result is the unpadded URL safe base64 text of `data`.
#[verifier::external_body]
pub(crate) fn encode_url(data: &[u8]) -> (text: String)
    ensures
        text@ == base64_url(data@),
{
    URL_SAFE_NO_PAD.encode(data)
}

/// Calls `Engine::encode` of `base64::engine::general_purpose::STANDARD`.
/// Trusted: the result is the padded standard base64 text of `data`.
#[verifier::external_body]
pub(crate) fn encode_standard(data: &[u8]) -> (text: String)
    ensures
        text@ == base64_standard(data@),
{
    STANDARD.encode(data)
}

/// Calls `Engine::decode` of `base64::engine::general_purpose::STANDARD`, which asks for
/// canonical padding and for zero bits behind the last byte.
/// Trusted: decoding succeeds exactly on the base64 text of some bytes and gives those
/// bytes back; the error depends on the text alone.
#[verifier::external_body]
pub(crate) fn decode_standard(text: &str) -> (r: Result<Vec<u8>, base64::DecodeError>)
    ensures
        r matches Ok(bytes) ==> text@ == base64_standard(bytes@),
        r matches Err(e) ==> e == standard_decode_error(text@) && forall|b: Seq<u8>|
            text@ != #[trigger] base64_standard(b),
{
    STANDARD.decode(text)
}

proof fn lemma_alphabet_injective(v: int, w: int, c62: char, c63: char)
    requires
        0 <= v < 64,
        0 <= w < 64,
        (c62 == '-' && c63 == '_') || (c62 == '+' && c63 == '/'),
        alphabet(v, c62, c63) == alphabet(w, c62, c63),
    ensures
        v == w,
{
    assert(alphabet(v, c62, c63) as int == alphabet(w, c62, c63) as int);
}

proof fn lemma_sextet_range(bytes: Seq<u8>, i: int)
    requires
        0 <= i,
    ensures
        0 <= sextet(bytes, i) < 64,
{
}

/// The sextets of two byte strings agree in `i`.
proof fn lemma_sextet_agrees(a: Seq<u8>, b: Seq<u8>, i: int, c62: char, c63: char)
    requires
        (c62 == '-' && c63 == '_') || (c62 == '+' && c63 == '/'),
        a.len() == b.len(),
        unpadded(a, c62, c63) == unpadded(b, c62, c63),
        0 <= i < sextet_count(a.len()),
    ensures
        sextet(a, i) == sextet(b, i),
{
    lemma_sextet_range(a, i);
    lemma_sextet_range(b, i);
    assert(unpadded(a, c62, c63)[i] == alphabet(sextet(a, i), c62, c63));
    assert(unpadded(b, c62, c63)[i] == alphabet(sextet(b, i), c62, c63));
    lemma_alphabet_injective(sextet(a, i), sextet(b, i), c62, c63);
}

proof fn lemma_unpadded_injective(a: Seq<u8>, b: Seq<u8>, c62: char, c63: char)
    requires
        (c62 == '-' && c63 == '_') || (c62 == '+' && c63 == '/'),
        unpadded(a, c62, c63) == unpadded(b, c62, c63),
    ensures
        a == b,
{
    let n = a.len();
    let m = b.len();
    assert(unpadded(a, c62, c63).len() == sextet_count(n));
    assert(unpadded(b, c62, c63).len() == sextet_count(m));
    assert(n < m ==> (8 * n + 5) / 6 < (8 * m + 5) / 6);
    assert(m < n ==> (8 * m + 5) / 6 < (8 * n + 5) / 6);
    assert forall|j: int| 0 <= j < a.len() implies a[j] == b[j] by {
        let g = j / 3;
        if j % 3 == 0 {
            lemma_sextet_agrees(a, b, 4 * g, c62, c63);
            lemma_sextet_agrees(a, b, 4 * g + 1, c62, c63);
            assert((4 * g + 1) / 4 == g && (4 * g) / 4 == g);
        } else if j % 3 == 1 {
            lemma_sextet_agrees(a, b, 4 * g + 1, c62, c63);
            lemma_sextet_agrees(a, b, 4 * g + 2, c62, c63);
            assert((4 * g + 1) / 4 == g && (4 * g + 2) / 4 == g);
        } else {
            lemma_sextet_agrees(a, b, 4 * g + 2, c62, c63);
            lemma_sextet_agrees(a, b, 4 * g + 3, c62, c63);
            assert((4 * g + 2) / 4 == g && (4 * g + 3) / 4 == g);
        }
    }
    assert(a =~= b);
}

/// Different bytes have different base64 texts, in either form.
pub proof fn law_base64_determines_bytes(a: Seq<u8>, b: Seq<u8>)
    ensures
        base64_url(a) == base64_url(b) ==> a == b,
        base64_standard(a) == base64_standard(b) ==> a == b,
{
    if base64_url(a) == base64_url(b) {
        lemma_unpadded_injective(a, b, '-', '_');
    }
    if base64_standard(a) == base64_standard(b) {
        let ua = unpadded(a, '+', '/');
        let ub = unpadded(b, '+', '/');
        let sa = base64_standard(a);
        let sb = base64_standard(b);
        if ua.len() < ub.len() {
            assert(sa[ua.len() as int] == '=');
            assert(sb[ua.len() as int] == ub[ua.len() as int]);
            lemma_sextet_range(b, ua.len() as int);
        } else if ub.len() < ua.len() {
            assert(sb[ub.len() as int] == '=');
            assert(sa[ub.len() as int] == ua[ub.len() as int]);
            lemma_sextet_range(a, ub.len() as int);
        } else {
            assert(ua =~= sa.take(ua.len() as int));
            assert(ub =~= sb.take(ub.len() as int));
            lemma_unpadded_injective(a, b, '+', '/');
        }
    }
}

/// No URL safe base64 text holds a dot, so a dot can separate such texts.
pub proof fn law_base64_url_has_no_dot(bytes: Seq<u8>)
    ensures
        !base64_url(bytes).contains('.'),
{
    assert forall|i: int| 0 <= i < base64_url(bytes).len() implies base64_url(bytes)[i] != '.' by {
        lemma_sextet_range(bytes, i);
    }
}

} // verus!
