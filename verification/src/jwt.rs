//! JSON web tokens signed with ES256 (RFC 7515, RFC 7518).
use jsonwebtoken::EncodingKey;
use vstd::prelude::*;
use vstd::utf8::encode_utf8;

use crate::base64_text::{base64_url, encode_url, law_base64_determines_bytes, law_base64_url_has_no_dot};
use crate::json::{json_compact, law_json_determines_members, object_members, Members, ScalarView};
use crate::pem_block::pem_block;
use crate::text::join3;

verus! {

/// A private key held in memory.
#[verifier::external_type_specification]
#[verifier::external_body]
pub struct ExEncodingKey(EncodingKey);

/// The error of `jsonwebtoken`.
#[verifier::external_type_specification]
#[verifier::external_body]
pub struct ExJwtError(jsonwebtoken::errors::Error);

/// The signature algorithms of tokens.
#[derive(Clone, Copy, Debug, PartialEq, Eq, Structural)]
pub enum TokenAlgorithm {
    /// ECDSA on the P-256 curve with SHA-256.
    ES256,
}

/// The header of a token.
pub struct TokenHeader {
    /// The signature algorithm.
    pub alg: TokenAlgorithm,
    /// The identifier of the key.
    pub kid: String,
}

impl TokenAlgorithm {
    /// The algorithm's registered name.
    pub open spec fn name(self) -> Seq<char> {
        match self {
            TokenAlgorithm::ES256 => "ES256"@,
        }
    }
}

/// The members of a token's header.
pub open spec fn header_members(alg: TokenAlgorithm, kid: Seq<char>) -> Members {
    seq![
        ("typ"@, ScalarView::Text("JWT"@)),
        ("alg"@, ScalarView::Text(alg.name())),
        ("kid"@, ScalarView::Text(kid)),
    ]
}

/// One segment of a token: base64 of the UTF-8 bytes of the JSON object with `members`.
pub open spec fn json_segment(members: Members) -> Seq<char> {
    base64_url(encode_utf8(json_compact(members)))
}

/// The text that a token's signature covers: the segments of header and claims with a dot
/// between them.
pub open spec fn signing_text(header: Members, claims: Members) -> Seq<char> {
    json_segment(header) + seq!['.'] + json_segment(claims)
}

/// A token: the signed text, a dot and the segment of the signature.
pub open spec fn token_text(signed: Seq<char>, signature: Seq<u8>) -> Seq<char> {
    signed + seq!['.'] + base64_url(signature)
}

/// `EncodingKey::from_ec_der` for the PKCS#8 encoded private key `der`.
pub uninterp spec fn ec_der_key(der: Seq<u8>) -> EncodingKey;

/// `EncodingKey::from_ec_pem` for the PEM file `data`.
pub uninterp spec fn ec_pem_key(data: Seq<u8>) -> Result<EncodingKey, jsonwebtoken::errors::Error>;

/// `key` is a key for ECDSA: the family of keys that `jsonwebtoken::encode` asks for where
/// the algorithm is ES256.
pub uninterp spec fn is_ec_key(key: EncodingKey) -> bool;

/// The bytes that `key` holds.
pub uninterp spec fn key_bytes(key: EncodingKey) -> Seq<u8>;

/// `der` is a P-256 private key in PKCS#8 form, as `jsonwebtoken::encode` asks for where the
/// algorithm is ES256: with a public key that belongs to it.
pub uninterp spec fn is_p256_pkcs8(der: Seq<u8>) -> bool;

/// How an error of `jsonwebtoken` reads.
pub uninterp spec fn jwt_error_text(error: jsonwebtoken::errors::Error) -> Seq<char>;

/// `signature` is one of the ES256 signatures that signing `message` with `key` can give.
pub uninterp spec fn es256_signature(
    key: EncodingKey,
    message: Seq<u8>,
    signature: Seq<u8>,
) -> bool;

/// The derived `Clone` of `jsonwebtoken::EncodingKey`.
/// Trusted: the clone is the same key.
pub assume_specification[ <EncodingKey as Clone>::clone ](key: &EncodingKey) -> (copy: EncodingKey)
    ensures
        copy == *key,
;

/// `jsonwebtoken::EncodingKey::from_ec_der`, which takes any bytes.
/// Trusted: the key depends on `der` alone, is one for ECDSA, and holds the bytes as they are.
pub assume_specification[ EncodingKey::from_ec_der ](der: &[u8]) -> (key: EncodingKey)
    ensures
        key == ec_der_key(der@),
        is_ec_key(key),
        key_bytes(key) == der@,
;

/// `jsonwebtoken::EncodingKey::from_ec_pem`.
/// Trusted: the outcome depends on the file alone. A key comes only out of a PEM block
/// tagged `PRIVATE KEY`, is one for ECDSA, and is the one that the block's contents give
/// as DER, which it holds as they are. Every error reads the same. Reading takes stack space
/// in proportion to how deeply the contents nest.
pub assume_specification[ EncodingKey::from_ec_pem ](key: &[u8]) -> (r: Result<EncodingKey, jsonwebtoken::errors::Error>)
    ensures
        r == ec_pem_key(key@),
        r matches Ok(k) ==> pem_block(key@) matches Ok(block) && block.0 == "PRIVATE KEY"@ && k
            == ec_der_key(block.1) && key_bytes(k) == block.1,
        r matches Ok(k) ==> is_ec_key(k),
        r matches Err(e) ==> jwt_error_text(e) == "InvalidKeyFormat"@,
;

/// Calls `serde_json::to_vec` on a `jsonwebtoken::Header` with `alg` and `kid`, and else the
/// defaults.
/// Trusted: a header is always written, as compact JSON in UTF-8 with the members `typ`,
/// `alg` and `kid`.
#[verifier::external_body]
pub(crate) fn header_to_vec(header: &TokenHeader) -> (r: Result<Vec<u8>, serde_json::Error>)
    ensures
        r is Ok,
        r->Ok_0@ == encode_utf8(json_compact(header_members(header.alg, header.kid@))),
{
    let alg = match header.alg {
        TokenAlgorithm::ES256 => jsonwebtoken::Algorithm::ES256,
    };
    let kid = Some(header.kid.clone());
    serde_json::to_vec(&jsonwebtoken::Header { alg, kid, ..Default::default() })
}

/// Calls `jsonwebtoken::encode`.
/// Trusted: a token consists of the header, the claims and a 64 byte signature of the two,
/// made with `key`. It comes only from a key for ECDSA that holds a P-256 private key; any
/// other key is an error, and how that reads is stated. Whether signing with such a key
/// succeeds depends on the system's random numbers: nothing is said of that, nor of the
/// error.
#[verifier::external_body]
pub(crate) fn encode_token(
    header: &TokenHeader,
    claims: &serde_json::Map<String, serde_json::Value>,
    key: &EncodingKey,
) -> (r: Result<String, jsonwebtoken::errors::Error>)
    requires
        object_members(*claims) is Some,
    ensures
        r is Ok ==> is_ec_key(*key) && is_p256_pkcs8(key_bytes(*key)),
        r matches Err(e) ==> !is_ec_key(*key) ==> jwt_error_text(e) == "InvalidAlgorithm"@,
        r matches Err(e) ==> is_ec_key(*key) && !is_p256_pkcs8(key_bytes(*key))
            ==> jwt_error_text(e) == "InvalidEcdsaKey"@,
        r matches Ok(token) ==> {
            let signed = signing_text(
                header_members(header.alg, header.kid@),
                object_members(*claims)->0,
            );
            exists|signature: Seq<u8>|
                {
                    &&& signature.len() == 64
                    &&& #[trigger] es256_signature(*key, encode_utf8(signed), signature)
                    &&& token@ == token_text(signed, signature)
                }
        },
{
    let alg = match header.alg {
        TokenAlgorithm::ES256 => jsonwebtoken::Algorithm::ES256,
    };
    let kid = Some(header.kid.clone());
    let header = jsonwebtoken::Header { alg, kid, ..Default::default() };
    jsonwebtoken::encode(&header, claims, key)
}

/// `key` is the ECDSA key that holds the bytes `der`.
pub open spec fn is_ec_key_of(key: EncodingKey, der: Seq<u8>) -> bool {
    is_ec_key(key) && key_bytes(key) == der
}

/// `key` is an ECDSA key that holds a P-256 private key.
pub open spec fn is_p256_key(key: EncodingKey) -> bool {
    is_ec_key(key) && is_p256_pkcs8(key_bytes(key))
}

/// `error` is how a key is refused that is not an ECDSA key with a P-256 private key.
pub open spec fn is_refusal_of(error: jsonwebtoken::errors::Error, key: EncodingKey) -> bool {
    jwt_error_text(error) == if is_ec_key(key) {
        "InvalidEcdsaKey"@
    } else {
        "InvalidAlgorithm"@
    }
}

/// `token` is `signed` with a 64 byte ES256 signature of it by `key`.
pub open spec fn is_token_signed_by(token: Seq<char>, signed: Seq<char>, key: EncodingKey) -> bool {
    exists|signature: Seq<u8>|
        {
            &&& signature.len() == 64
            &&& #[trigger] es256_signature(key, encode_utf8(signed), signature)
            &&& token == token_text(signed, signature)
        }
}

/// The text that a signature covers, from the JSON bytes of header and claims.
pub fn signing_input(header: &[u8], claims: &[u8]) -> (text: String)
    ensures
        text@ == base64_url(header@) + seq!['.'] + base64_url(claims@),
{
    proof {
        reveal_strlit(".");
        assert("."@ =~= seq!['.']);
    }
    join3(encode_url(header).as_str(), ".", encode_url(claims).as_str())
}

/// The token made of the signed text and its signature.
pub fn attach_signature(signed: &str, signature: &[u8]) -> (token: String)
    ensures
        token@ == token_text(signed@, signature@),
{
    proof {
        reveal_strlit(".");
        assert("."@ =~= seq!['.']);
    }
    join3(signed, ".", encode_url(signature).as_str())
}

/// Texts without dots that are joined by a dot are determined by the whole, up to the
/// first dot.
proof fn lemma_first_dot(a: Seq<char>, x: Seq<char>, b: Seq<char>, y: Seq<char>)
    requires
        a + seq!['.'] + x == b + seq!['.'] + y,
        !a.contains('.'),
        !b.contains('.'),
    ensures
        a == b,
        x == y,
{
    let l = a + seq!['.'] + x;
    let r = b + seq!['.'] + y;
    assert(l[a.len() as int] == '.');
    assert(r[b.len() as int] == '.');
    if a.len() < b.len() {
        assert(r[a.len() as int] == b[a.len() as int]);
    } else if b.len() < a.len() {
        assert(l[b.len() as int] == a[b.len() as int]);
    }
    assert(a =~= l.take(a.len() as int));
    assert(b =~= r.take(b.len() as int));
    assert(x =~= l.skip(a.len() as int + 1));
    assert(y =~= r.skip(b.len() as int + 1));
}

proof fn lemma_segment_determines_members(a: Members, b: Members)
    requires
        json_segment(a) == json_segment(b),
    ensures
        a == b,
{
    law_base64_determines_bytes(encode_utf8(json_compact(a)), encode_utf8(json_compact(b)));
    vstd::utf8::encode_utf8_decode_utf8(json_compact(a));
    vstd::utf8::encode_utf8_decode_utf8(json_compact(b));
    law_json_determines_members(a, b);
}

/// A token can be taken apart again: its text determines the members of its header, the
/// members of its claims and the bytes of its signature.
pub proof fn law_token_determines_parts(
    header1: Members,
    claims1: Members,
    signature1: Seq<u8>,
    header2: Members,
    claims2: Members,
    signature2: Seq<u8>,
)
    requires
        token_text(signing_text(header1, claims1), signature1) == token_text(
            signing_text(header2, claims2),
            signature2,
        ),
    ensures
        header1 == header2,
        claims1 == claims2,
        signature1 == signature2,
{
    let h1 = json_segment(header1);
    let h2 = json_segment(header2);
    let c1 = json_segment(claims1);
    let c2 = json_segment(claims2);
    let s1 = base64_url(signature1);
    let s2 = base64_url(signature2);
    law_base64_url_has_no_dot(encode_utf8(json_compact(header1)));
    law_base64_url_has_no_dot(encode_utf8(json_compact(header2)));
    law_base64_url_has_no_dot(encode_utf8(json_compact(claims1)));
    law_base64_url_has_no_dot(encode_utf8(json_compact(claims2)));
    let t1 = token_text(signing_text(header1, claims1), signature1);
    let t2 = token_text(signing_text(header2, claims2), signature2);
    assert(t1 =~= h1 + seq!['.'] + (c1 + seq!['.'] + s1));
    assert(t2 =~= h2 + seq!['.'] + (c2 + seq!['.'] + s2));
    lemma_first_dot(h1, c1 + seq!['.'] + s1, h2, c2 + seq!['.'] + s2);
    lemma_first_dot(c1, s1, c2, s2);
    lemma_segment_determines_members(header1, header2);
    lemma_segment_determines_members(claims1, claims2);
    law_base64_determines_bytes(signature1, signature2);
}

} // verus!
