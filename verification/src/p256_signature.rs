//! ECDSA P-256 signatures: the ASN.1 DER form and the fixed width form.
use vstd::prelude::*;

verus! {

/// The order of the P-256 group.
pub open spec fn p256_order() -> nat {
    0xffffffff00000000ffffffffffffffffbce6faada7179e84f3b9cac2fc632551nat
}

/// The number with the big endian digits `bytes` in base 256.
pub open spec fn big_endian(bytes: Seq<u8>) -> nat
    decreases bytes.len(),
{
    if bytes.len() == 0 {
        0
    } else {
        256 * big_endian(bytes.drop_last()) + bytes.last() as nat
    }
}

/// `raw` is a P-256 signature in fixed width form: `r` and then `s`, 32 bytes each, and
/// both between 1 and the group order.
pub open spec fn is_raw_signature(raw: Seq<u8>) -> bool {
    &&& raw.len() == 64
    &&& 0 < big_endian(raw.take(32)) < p256_order()
    &&& 0 < big_endian(raw.skip(32)) < p256_order()
}

/// The contents octets of the ASN.1 `INTEGER` whose value has the big endian digits `bytes`:
/// no superfluous leading zero, and one zero where the first bit would read as a sign.
pub open spec fn der_integer_contents(bytes: Seq<u8>) -> Seq<u8>
    decreases bytes.len(),
{
    if bytes.len() == 0 {
        bytes
    } else if bytes[0] == 0 {
        der_integer_contents(bytes.drop_first())
    } else if bytes[0] >= 0x80 {
        seq![0u8] + bytes
    } else {
        bytes
    }
}

/// The ASN.1 DER encoding with `tag` and `contents` of less than 128 bytes.
pub open spec fn der_short(tag: u8, contents: Seq<u8>) -> Seq<u8> {
    seq![tag, contents.len() as u8] + contents
}

/// The ASN.1 DER form of a signature in fixed width form: a `SEQUENCE` of two `INTEGER`s.
pub open spec fn der_signature(raw: Seq<u8>) -> Seq<u8> {
    let r = der_short(0x02, der_integer_contents(raw.take(32)));
    let s = der_short(0x02, der_integer_contents(raw.skip(32)));
    der_short(0x30, r + s)
}

/// Calls `p256::ecdsa::Signature::from_der`, and `to_bytes` on the signature.
/// Trusted: parsing succeeds exactly on the DER form of a P-256 signature, and gives its
/// fixed width form; the error has no details and always reads the same.
#[verifier::external_body]
pub(crate) fn raw_from_der(der: &[u8]) -> (r: Result<Vec<u8>, String>)
    ensures
        r matches Ok(raw) ==> is_raw_signature(raw@) && der@ == der_signature(raw@),
        r matches Err(text) ==> text@ == "signature error"@ && forall|raw: Seq<u8>|
            is_raw_signature(raw) ==> der@ != #[trigger] der_signature(raw),
{
    match p256::ecdsa::Signature::from_der(der) {
        Ok(signature) => Ok(signature.to_bytes().to_vec()),
        Err(e) => Err(e.to_string()),
    }
}

proof fn lemma_contents_len(bytes: Seq<u8>)
    ensures
        der_integer_contents(bytes).len() <= bytes.len() + 1,
        bytes.len() > 0 && bytes[0] == 0 ==> der_integer_contents(bytes).len() <= bytes.len(),
    decreases bytes.len(),
{
    if bytes.len() > 0 {
        lemma_contents_len(bytes.drop_first());
    }
}

/// An `INTEGER` that fills the width of a number with a leading zero starts with a zero.
proof fn lemma_contents_start(bytes: Seq<u8>)
    requires
        bytes.len() > 0,
        bytes[0] == 0,
        der_integer_contents(bytes).len() == bytes.len(),
    ensures
        der_integer_contents(bytes)[0] == 0,
{
    let rest = bytes.drop_first();
    reveal_with_fuel(der_integer_contents, 2);
    if rest.len() > 0 && rest[0] == 0 {
        lemma_contents_len(rest);
    }
}

proof fn lemma_contents_injective(a: Seq<u8>, b: Seq<u8>)
    requires
        a.len() == b.len(),
        der_integer_contents(a) == der_integer_contents(b),
    ensures
        a == b,
    decreases a.len(),
{
    if a.len() == 0 {
        assert(a =~= b);
    } else if a[0] == 0 && b[0] == 0 {
        lemma_contents_injective(a.drop_first(), b.drop_first());
        assert(a =~= seq![a[0]] + a.drop_first());
        assert(b =~= seq![b[0]] + b.drop_first());
    } else if a[0] == 0 {
        lemma_contents_len(a);
        lemma_contents_start(a);
    } else if b[0] == 0 {
        lemma_contents_len(b);
        lemma_contents_start(b);
    } else {
        assert(a =~= der_integer_contents(a).skip(der_integer_contents(a).len() - a.len()));
        assert(b =~= der_integer_contents(b).skip(der_integer_contents(b).len() - b.len()));
    }
}

/// The DER form of a signature determines its fixed width form.
pub proof fn law_der_determines_raw_signature(a: Seq<u8>, b: Seq<u8>)
    requires
        is_raw_signature(a),
        is_raw_signature(b),
        der_signature(a) == der_signature(b),
    ensures
        a == b,
{
    let ar = der_integer_contents(a.take(32));
    let asn = der_integer_contents(a.skip(32));
    let br = der_integer_contents(b.take(32));
    let bsn = der_integer_contents(b.skip(32));
    lemma_contents_len(a.take(32));
    lemma_contents_len(a.skip(32));
    lemma_contents_len(b.take(32));
    lemma_contents_len(b.skip(32));
    let da = der_signature(a);
    let db = der_signature(b);
    assert(da[3] == ar.len() as u8);
    assert(db[3] == br.len() as u8);
    let n = ar.len() as int;
    assert(ar =~= da.subrange(4, 4 + n));
    assert(br =~= db.subrange(4, 4 + n));
    assert(asn =~= da.skip(6 + n));
    assert(bsn =~= db.skip(6 + n));
    lemma_contents_injective(a.take(32), b.take(32));
    lemma_contents_injective(a.skip(32), b.skip(32));
    assert(a =~= a.take(32) + a.skip(32));
    assert(b =~= b.take(32) + b.skip(32));
}

} // verus!
