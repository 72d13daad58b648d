//! Laws of tokens and of the encoders that issue them.
use std::sync::Arc;
use std::time::SystemTimeError;

use jsonwebtoken::EncodingKey;
use vstd::prelude::*;
use vstd::utf8::encode_utf8;

use crate::api_token::{
    finish_token, read_encoded_token, AppStoreConnectToken, ConnectTokenEncoder,
    ConnectTokenRequest, Es256Signer,
};
use crate::base64_text::base64_url;
use crate::clock::clock_may_read;
use crate::error::{ConnectError, InvalidPemPrivateKey, MissingApiKey};
use crate::json::{json_compact, ScalarView};
use crate::jwt::{
    attach_signature, ec_der_key, ec_pem_key, es256_signature, is_ec_key, is_p256_pkcs8,
    jwt_error_text, key_bytes, law_token_determines_parts, signing_input, signing_text,
    token_text,
};
use crate::pem_block::pem_block;

verus! {

/// The text that must be signed for a token of the key `key_id` of `issuer_id`, which is
/// issued at `iat` and expires at `exp`, in seconds since the UNIX epoch.
pub open spec fn text_to_sign(
    key_id: Seq<char>,
    issuer_id: Seq<char>,
    iat: u64,
    exp: int,
) -> Seq<char> {
    base64_url(
        encode_utf8(
            json_compact(
                seq![
                    ("typ"@, ScalarView::Text("JWT"@)),
                    ("alg"@, ScalarView::Text("ES256"@)),
                    ("kid"@, ScalarView::Text(key_id)),
                ],
            ),
        ),
    ) + seq!['.'] + base64_url(
        encode_utf8(
            json_compact(
                seq![
                    ("iss"@, ScalarView::Text(issuer_id)),
                    ("iat"@, ScalarView::Number(iat)),
                    ("exp"@, ScalarView::Number(exp as u64)),
                    ("aud"@, ScalarView::Text("appstoreconnect-v1"@)),
                ],
            ),
        ),
    )
}

/// `outcome` is a token of `signed` with a signature that the signer among an encoder's
/// arguments made of it, or the error of the signer.
pub open spec fn is_signed_by_signer(
    args: (String, String, Arc<dyn Es256Signer>),
    signed: Seq<char>,
    outcome: Result<AppStoreConnectToken, ConnectError>,
) -> bool {
    exists|made: Result<Vec<u8>, ConnectError>|
        {
            &&& #[trigger] args.2.may_return(encode_utf8(signed), made)
            &&& match made {
                Ok(bytes) => outcome matches Ok(token) && token@ == signed + seq!['.']
                    + base64_url(bytes@),
                Err(e) => outcome == Err::<AppStoreConnectToken, ConnectError>(e),
            }
        }
}

/// `outcome` is a token of `signed` with a 64 byte signature that `key` makes of it, or a
/// refusal by `jsonwebtoken`. Only an ECDSA key with a P-256 private key gives a token.
pub open spec fn is_signed_in_memory(
    key: EncodingKey,
    signed: Seq<char>,
    outcome: Result<AppStoreConnectToken, ConnectError>,
) -> bool {
    match outcome {
        Ok(token) => {
            &&& is_ec_key(key)
            &&& is_p256_pkcs8(key_bytes(key))
            &&& exists|signature: Seq<u8>|
                {
                    &&& signature.len() == 64
                    &&& #[trigger] es256_signature(key, encode_utf8(signed), signature)
                    &&& token@ == signed + seq!['.'] + base64_url(signature)
                }
        },
        Err(ConnectError::Jwt(error)) => {
            &&& !is_ec_key(key) ==> jwt_error_text(error) == "InvalidAlgorithm"@
            &&& is_ec_key(key) && !is_p256_pkcs8(key_bytes(key)) ==> jwt_error_text(error)
                == "InvalidEcdsaKey"@
        },
        Err(_) => false,
    }
}

/// An encoder with an external signer issues tokens for its own key and issuer, for exactly
/// the time that is asked for, and hands the signer exactly the text of the token.
pub proof fn law_external_token_says_what_was_asked(
    args: (String, String, Arc<dyn Es256Signer>),
    encoder: ConnectTokenEncoder,
    now: u64,
    duration: u64,
    outcome: Result<AppStoreConnectToken, ConnectError>,
)
    requires
        now + duration <= u64::MAX,
        call_ensures(ConnectTokenEncoder::from_es256_signer, args, encoder),
        call_ensures(ConnectTokenEncoder::token_at, (&encoder, now, duration), outcome),
    ensures
        is_signed_by_signer(
            args,
            text_to_sign(args.0@, args.1@, now, now + duration),
            outcome,
        ),
{
    lemma_text_to_sign(encoder, now, duration);
    let signed = encoder@.signed_text(now, duration);
    let made = choose|made: Result<Vec<u8>, ConnectError>| #[trigger]
        args.2.may_return(encode_utf8(signed), made) && crate::api_token::is_token_of(
            outcome,
            signed,
            made,
        );
    assert(args.2.may_return(encode_utf8(signed), made));
}

/// An encoder with a key in memory issues tokens for its own key and issuer, for exactly the
/// time that is asked for, signed with that key.
pub proof fn law_in_memory_token_says_what_was_asked(
    key_id: String,
    issuer_id: String,
    key: EncodingKey,
    encoder: ConnectTokenEncoder,
    now: u64,
    duration: u64,
    outcome: Result<AppStoreConnectToken, ConnectError>,
)
    requires
        now + duration <= u64::MAX,
        call_ensures(ConnectTokenEncoder::from_jwt_encoding_key, (key_id, issuer_id, key), encoder),
        call_ensures(ConnectTokenEncoder::token_at, (&encoder, now, duration), outcome),
    ensures
        is_signed_in_memory(
            key,
            text_to_sign(key_id@, issuer_id@, now, now + duration),
            outcome,
        ),
{
    lemma_text_to_sign(encoder, now, duration);
}

/// The text that an encoder signs, spelled out.
proof fn lemma_text_to_sign(encoder: ConnectTokenEncoder, now: u64, duration: u64)
    requires
        now + duration <= u64::MAX,
    ensures
        encoder@.signed_text(now, duration) == text_to_sign(
            encoder@.key_id,
            encoder@.issuer_id,
            now,
            now + duration,
        ),
{
}

/// A new token of an encoder with an external signer is issued at the number of seconds since
/// the UNIX epoch that the clock gave, and expires `duration` seconds later. It is refused
/// exactly where the clock gave no such number, or where the expiry cannot be written.
pub proof fn law_new_external_token_is_issued_by_the_clock(
    args: (String, String, Arc<dyn Es256Signer>),
    encoder: ConnectTokenEncoder,
    duration: u64,
    outcome: Result<AppStoreConnectToken, ConnectError>,
)
    requires
        call_ensures(ConnectTokenEncoder::from_es256_signer, args, encoder),
        call_ensures(ConnectTokenEncoder::new_token, (&encoder, duration), outcome),
    ensures
        exists|clock: Result<u64, SystemTimeError>| #[trigger]
            clock_may_read(clock) && match clock {
                Ok(now) if now + duration <= u64::MAX => is_signed_by_signer(
                    args,
                    text_to_sign(args.0@, args.1@, now, now + duration),
                    outcome,
                ),
                Ok(_) => outcome == Err::<AppStoreConnectToken, ConnectError>(
                    ConnectError::ExpiryOutOfRange,
                ),
                Err(_) => outcome == Err::<AppStoreConnectToken, ConnectError>(
                    ConnectError::ClockBeforeEpoch,
                ),
            },
{
    let clock = choose|clock: Result<u64, SystemTimeError>|
        clock_may_read(clock) && #[trigger] encoder@.may_issue_at(clock, duration, outcome);
    lemma_external_at_clock(args, encoder, clock, duration, outcome);
    assert(clock_may_read(clock));
}

/// A new token of an encoder with a key in memory is issued at the number of seconds since
/// the UNIX epoch that the clock gave, and expires `duration` seconds later.
pub proof fn law_new_in_memory_token_is_issued_by_the_clock(
    key_id: String,
    issuer_id: String,
    key: EncodingKey,
    encoder: ConnectTokenEncoder,
    duration: u64,
    outcome: Result<AppStoreConnectToken, ConnectError>,
)
    requires
        call_ensures(ConnectTokenEncoder::from_jwt_encoding_key, (key_id, issuer_id, key), encoder),
        call_ensures(ConnectTokenEncoder::new_token, (&encoder, duration), outcome),
    ensures
        exists|clock: Result<u64, SystemTimeError>| #[trigger]
            clock_may_read(clock) && match clock {
                Ok(now) if now + duration <= u64::MAX => is_signed_in_memory(
                    key,
                    text_to_sign(key_id@, issuer_id@, now, now + duration),
                    outcome,
                ),
                Ok(_) => outcome == Err::<AppStoreConnectToken, ConnectError>(
                    ConnectError::ExpiryOutOfRange,
                ),
                Err(_) => outcome == Err::<AppStoreConnectToken, ConnectError>(
                    ConnectError::ClockBeforeEpoch,
                ),
            },
{
    let clock = choose|clock: Result<u64, SystemTimeError>|
        clock_may_read(clock) && #[trigger] encoder@.may_issue_at(clock, duration, outcome);
    assert(clock_may_read(clock));
    if clock is Ok && clock->Ok_0 + duration <= u64::MAX {
        lemma_text_to_sign(encoder, clock->Ok_0, duration);
    }
}

proof fn lemma_external_at_clock(
    args: (String, String, Arc<dyn Es256Signer>),
    encoder: ConnectTokenEncoder,
    clock: Result<u64, SystemTimeError>,
    duration: u64,
    outcome: Result<AppStoreConnectToken, ConnectError>,
)
    requires
        call_ensures(ConnectTokenEncoder::from_es256_signer, args, encoder),
        encoder@.may_issue_at(clock, duration, outcome),
    ensures
        clock matches Ok(now) ==> now + duration <= u64::MAX ==> is_signed_by_signer(
            args,
            text_to_sign(args.0@, args.1@, now, now + duration),
            outcome,
        ),
{
    if clock is Ok && clock->Ok_0 + duration <= u64::MAX {
        let now = clock->Ok_0;
        lemma_text_to_sign(encoder, now, duration);
        let signed = encoder@.signed_text(now, duration);
        let made = choose|made: Result<Vec<u8>, ConnectError>| #[trigger]
            args.2.may_return(encode_utf8(signed), made) && crate::api_token::is_token_of(
                outcome,
                signed,
                made,
            );
        assert(args.2.may_return(encode_utf8(signed), made));
    }
}

/// A token for a reading of the clock is issued at that reading, whichever key signs it: who
/// takes its text apart finds the key identifier, the issuer, the reading as the time of
/// issue, and the expiry `duration` seconds later.
pub proof fn law_token_for_a_reading_is_issued_then(
    encoder: ConnectTokenEncoder,
    clock: Result<u64, SystemTimeError>,
    duration: u64,
    outcome: Result<AppStoreConnectToken, ConnectError>,
    header: Seq<(Seq<char>, ScalarView)>,
    claims: Seq<(Seq<char>, ScalarView)>,
    signature: Seq<u8>,
)
    requires
        call_ensures(ConnectTokenEncoder::token_from_clock, (&encoder, clock, duration), outcome),
        outcome matches Ok(token) ==> token@ == token_text(signing_text(header, claims), signature),
    ensures
        clock is Err ==> outcome == Err::<AppStoreConnectToken, ConnectError>(
            ConnectError::ClockBeforeEpoch,
        ),
        clock matches Ok(now) ==> now + duration > u64::MAX ==> outcome == Err::<
            AppStoreConnectToken,
            ConnectError,
        >(ConnectError::ExpiryOutOfRange),
        outcome is Ok ==> {
            let now = clock->Ok_0;
            &&& header.len() == 3 && claims.len() == 4
            &&& header[0] == ("typ"@, ScalarView::Text("JWT"@))
            &&& header[1] == ("alg"@, ScalarView::Text("ES256"@))
            &&& header[2] == ("kid"@, ScalarView::Text(encoder@.key_id))
            &&& claims[0] == ("iss"@, ScalarView::Text(encoder@.issuer_id))
            &&& claims[1] == ("iat"@, ScalarView::Number(now))
            &&& claims[2].0 == "exp"@
            &&& claims[2].1 matches ScalarView::Number(exp) && exp == now + duration
            &&& claims[3] == ("aud"@, ScalarView::Text("appstoreconnect-v1"@))
        },
{
    if outcome is Ok {
        let now = clock->Ok_0;
        let own_signature = crate::api_token::lemma_issued_token_text(
            encoder@,
            now,
            duration,
            outcome->Ok_0,
        );
        let own_header = crate::jwt::header_members(
            crate::jwt::TokenAlgorithm::ES256,
            encoder@.key_id,
        );
        let own_claims = crate::api_token::claims_members(
            encoder@.issuer_id,
            now,
            (now + duration) as u64,
            "appstoreconnect-v1"@,
        );
        law_token_determines_parts(
            own_header,
            own_claims,
            own_signature,
            header,
            claims,
            signature,
        );
    }
}

/// The claims name the encoder's issuer and the times that are asked for.
pub proof fn law_claims_are_what_was_asked(
    key_id: String,
    issuer_id: String,
    key: EncodingKey,
    encoder: ConnectTokenEncoder,
    now: u64,
    duration: u64,
    claims: ConnectTokenRequest,
)
    requires
        now + duration <= u64::MAX,
        call_ensures(ConnectTokenEncoder::from_jwt_encoding_key, (key_id, issuer_id, key), encoder),
        call_ensures(ConnectTokenEncoder::claims, (&encoder, now, duration), claims),
    ensures
        claims.iss@ == issuer_id@,
        claims.iat == now,
        claims.exp - claims.iat == duration,
        claims.aud@ == "appstoreconnect-v1"@,
{
}

/// A clone is the same encoder.
pub proof fn law_clone_is_the_same_encoder(encoder: ConnectTokenEncoder, copy: ConnectTokenEncoder)
    requires
        call_ensures(ConnectTokenEncoder::clone, (&encoder,), copy),
    ensures
        copy@.key_id == encoder@.key_id,
        copy@.issuer_id == encoder@.issuer_id,
        copy@.signing_key == encoder@.signing_key,
{
}

/// Every way to make an encoder from a private key comes to the same: the encoder of the key
/// that `jsonwebtoken` reads, with the key identifier and the issuer that are given. What
/// `jsonwebtoken` does not read is its error, and a file that was not found is no key.
pub proof fn law_private_keys_make_the_same_encoder(
    key_id: String,
    issuer_id: String,
    der: &[u8],
    pem: &[u8],
    file: Vec<u8>,
    missing: MissingApiKey,
    key: Result<EncodingKey, jsonwebtoken::errors::Error>,
    from_der: Result<ConnectTokenEncoder, ConnectError>,
    from_pem: Result<ConnectTokenEncoder, ConnectError>,
    from_file: Result<ConnectTokenEncoder, ConnectError>,
    not_found: Result<ConnectTokenEncoder, ConnectError>,
    from_key: Result<ConnectTokenEncoder, ConnectError>,
)
    requires
        call_ensures(ConnectTokenEncoder::from_ecdsa_der, (key_id, issuer_id, der), from_der),
        call_ensures(ConnectTokenEncoder::from_ecdsa_pem, (key_id, issuer_id, pem), from_pem),
        call_ensures(
            ConnectTokenEncoder::from_api_key_id,
            (key_id, issuer_id, Ok(file)),
            from_file,
        ),
        call_ensures(
            ConnectTokenEncoder::from_api_key_id,
            (key_id, issuer_id, Err(missing)),
            not_found,
        ),
        call_ensures(ConnectTokenEncoder::from_ec_pem_outcome, (key_id, issuer_id, key), from_key),
        file@ == pem@,
    ensures
        is_encoder_of(Ok(ec_der_key(der@)), key_id@, issuer_id@, from_der),
        is_encoder_of(ec_pem_key(pem@), key_id@, issuer_id@, from_pem),
        is_encoder_of(ec_pem_key(pem@), key_id@, issuer_id@, from_file),
        is_encoder_of(key, key_id@, issuer_id@, from_key),
        not_found == Err::<ConnectTokenEncoder, ConnectError>(ConnectError::MissingApiKey(missing)),
        is_ec_key(ec_der_key(der@)) && key_bytes(ec_der_key(der@)) == der@,
        from_pem is Ok ==> pem_block(pem@) is Ok && pem_block(pem@)->Ok_0.0 == "PRIVATE KEY"@,
{
}

/// `r` is an encoder that acts as the one for `key`: with the key identifier, the issuer and
/// the key that every encoder of the key is made with; or the error of the key.
pub open spec fn is_encoder_of(
    key: Result<EncodingKey, jsonwebtoken::errors::Error>,
    key_id: Seq<char>,
    issuer_id: Seq<char>,
    r: Result<ConnectTokenEncoder, ConnectError>,
) -> bool {
    match key {
        Ok(k) => r is Ok && forall|id: String, issuer: String, direct: ConnectTokenEncoder|
            #![trigger call_ensures(
                ConnectTokenEncoder::from_jwt_encoding_key,
                (id, issuer, k),
                direct,
            )]
            id@ == key_id && issuer@ == issuer_id && call_ensures(
                ConnectTokenEncoder::from_jwt_encoding_key,
                (id, issuer, k),
                direct,
            ) ==> r->Ok_0@ == direct@,
        Err(e) => r == Err::<ConnectTokenEncoder, ConnectError>(ConnectError::Jwt(e)),
    }
}

/// A token ends in the signature that the signer gave, and nothing else follows the signed
/// text; the signer's own error comes through, and so does the outcome of encoding.
pub proof fn law_signatures_and_errors_come_through(
    signed: &str,
    bytes: Vec<u8>,
    error: ConnectError,
    token: String,
    jwt_error: jsonwebtoken::errors::Error,
    finished: Result<AppStoreConnectToken, ConnectError>,
    failed: Result<AppStoreConnectToken, ConnectError>,
    read: Result<AppStoreConnectToken, ConnectError>,
    refused: Result<AppStoreConnectToken, ConnectError>,
)
    requires
        call_ensures(finish_token, (signed, Ok(bytes)), finished),
        call_ensures(finish_token, (signed, Err(error)), failed),
        call_ensures(read_encoded_token, (Ok(token),), read),
        call_ensures(read_encoded_token, (Err(jwt_error),), refused),
    ensures
        finished matches Ok(t) && t@ == signed@ + seq!['.'] + base64_url(bytes@),
        failed == Err::<AppStoreConnectToken, ConnectError>(error),
        read matches Ok(t) && t@ == token@,
        refused == Err::<AppStoreConnectToken, ConnectError>(ConnectError::Jwt(jwt_error)),
{
}

/// The parts of a token stand in it one after the other, each in base64, with dots between.
pub proof fn law_parts_are_joined_by_dots(
    header: &[u8],
    claims: &[u8],
    signature: &[u8],
    signed: &str,
    text: String,
    token: String,
)
    requires
        call_ensures(signing_input, (header, claims), text),
        call_ensures(attach_signature, (signed, signature), token),
    ensures
        text@ == base64_url(header@) + seq!['.'] + base64_url(claims@),
        token@ == signed@ + seq!['.'] + base64_url(signature@),
{
}

/// How the errors of API keys and tokens read.
pub proof fn law_errors_read_as_documented(
    error: ConnectError,
    text: Option<String>,
    missing: MissingApiKey,
    missing_text: String,
    invalid: InvalidPemPrivateKey,
    invalid_text: String,
)
    requires
        call_ensures(ConnectError::own_text, (&error,), text),
        call_ensures(MissingApiKey::message, (&missing,), missing_text),
        call_ensures(InvalidPemPrivateKey::message, (&invalid,), invalid_text),
    ensures
        missing_text@ == "no app store connect api key found"@,
        invalid_text@ == "invalid PEM formatted private key"@,
        match error {
            ConnectError::MissingApiKey(_) => text matches Some(t) && t@ == missing_text@,
            ConnectError::InvalidPemPrivateKey(_) => text matches Some(t) && t@ == invalid_text@,
            ConnectError::InvalidUnifiedApiKey(_) => text matches Some(t) && t@
                == "invalid unified api key"@,
            ConnectError::Jwt(_) => text is None,
            ConnectError::Json(_) => text is None,
            ConnectError::ClockBeforeEpoch => text matches Some(t) && t@
                == "calculating UNIX time should never fail"@,
            ConnectError::ExpiryOutOfRange => text matches Some(t) && t@
                == "token expiry is out of range"@,
            ConnectError::Message(m) => text matches Some(t) && t@ == m@,
        },
{
}

} // verus!
