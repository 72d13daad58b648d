//! App Store Connect API tokens.
use std::sync::Arc;
use std::time::SystemTimeError;

use jsonwebtoken::EncodingKey;
use vstd::prelude::*;
use vstd::utf8::encode_utf8;

use crate::clock::{clock_may_read, law_clock_reading_is_the_systems, unix_time};
use crate::error::{ConnectError, MissingApiKey};
use crate::json::{
    insert_member, new_object, object_members, object_to_vec, JsonScalar, Members,
    ScalarView,
};
use crate::jwt::{
    attach_signature, ec_der_key, ec_pem_key, encode_token, es256_signature, header_members,
    header_to_vec, is_ec_key_of, is_p256_key, is_p256_pkcs8, is_refusal_of, is_token_signed_by,
    jwt_error_text, law_token_determines_parts, signing_input, signing_text, token_text, TokenAlgorithm, TokenHeader,
};
use crate::pem_block::pem_block;

verus! {

/// A signer capable of producing ES256 (ECDSA P-256 with SHA-256) signatures of tokens.
///
/// Implementations sign the text that a token's signature covers, and return the raw 64
/// byte signature (`r` and then `s`, not ASN.1 DER), as RFC 7518 asks for `ES256`.
///
/// This allows signing keys to live in remote key stores without exposing private key
/// material.
pub trait Es256Signer: Send + Sync {
    /// What signing `message` can come back with: anything, where an implementation does not
    /// say more.
    open spec fn may_return(
        &self,
        message: Seq<u8>,
        outcome: Result<Vec<u8>, ConnectError>,
    ) -> bool {
        true
    }

    /// Compute the ES256 signature of `message`.
    fn sign_es256(&self, message: &[u8]) -> (outcome: Result<Vec<u8>, ConnectError>)
        ensures
            self.may_return(message@, outcome),
    ;
}

/// A signer from outside of this library.
pub struct ExternalSigner<S> {
    /// The signer.
    pub signer: S,
}

/// The key that signs tokens.
pub enum TokenSigningKey {
    /// A private key held in memory.
    InMemory(EncodingKey),
    /// An external signer, such as a cloud key management service.
    Custom(ExternalSigner<Arc<dyn Es256Signer>>),
}

/// The claims of a token.
pub struct ConnectTokenRequest {
    /// Who issued the key.
    pub iss: String,
    /// When the token was issued, in seconds since the UNIX epoch.
    pub iat: u64,
    /// When the token expires, in seconds since the UNIX epoch.
    pub exp: u64,
    /// Whom the token is for.
    pub aud: String,
}

/// A token for use with the App Store Connect API.
pub type AppStoreConnectToken = String;

/// Issues tokens with a private key and its metadata.
///
/// Tokens are derived from a key identifier (a short alphanumeric text like `DEADBEEF42`),
/// an issuer ID (likely a UUID) and a private key, all issued by Apple.
pub struct ConnectTokenEncoder {
    key_id: String,
    issuer_id: String,
    signing_key: TokenSigningKey,
}

impl Clone for TokenSigningKey {
    fn clone(&self) -> (key: Self)
        ensures
            key == *self,
    {
        match self {
            TokenSigningKey::InMemory(encoding_key) => {
                TokenSigningKey::InMemory(encoding_key.clone())
            },
            TokenSigningKey::Custom(external) => {
                let signer = external.signer.clone();
                let external = ExternalSigner { signer };
                TokenSigningKey::Custom(external)
            },
        }
    }
}

impl Clone for ConnectTokenEncoder {
    fn clone(&self) -> (encoder: Self)
        ensures
            encoder@ == self@,
    {
        Self {
            key_id: self.key_id.clone(),
            issuer_id: self.issuer_id.clone(),
            signing_key: self.signing_key.clone(),
        }
    }
}

/// What a [`ConnectTokenEncoder`] holds.
pub struct EncoderView {
    /// The key identifier.
    pub key_id: Seq<char>,
    /// The issuer ID.
    pub issuer_id: Seq<char>,
    /// The key that signs.
    pub signing_key: TokenSigningKey,
}

impl View for ConnectTokenEncoder {
    type V = EncoderView;

    closed spec fn view(&self) -> EncoderView {
        EncoderView {
            key_id: self.key_id@,
            issuer_id: self.issuer_id@,
            signing_key: self.signing_key,
        }
    }
}

/// The members of the claims of a token.
pub open spec fn claims_members(iss: Seq<char>, iat: u64, exp: u64, aud: Seq<char>) -> Members {
    seq![
        ("iss"@, ScalarView::Text(iss)),
        ("iat"@, ScalarView::Number(iat)),
        ("exp"@, ScalarView::Number(exp)),
        ("aud"@, ScalarView::Text(aud)),
    ]
}

impl EncoderView {
    /// The text that is signed for a token issued at `now` for `duration` seconds.
    pub open spec fn signed_text(self, now: u64, duration: u64) -> Seq<char> {
        signing_text(
            header_members(TokenAlgorithm::ES256, self.key_id),
            claims_members(
                self.issuer_id,
                now,
                (now + duration) as u64,
                "appstoreconnect-v1"@,
            ),
        )
    }

    /// `outcome` is one that issuing a token at `now` for `duration` seconds can have.
    pub open spec fn may_issue(
        self,
        now: u64,
        duration: u64,
        outcome: Result<AppStoreConnectToken, ConnectError>,
    ) -> bool {
        let signed = self.signed_text(now, duration);
        match self.signing_key {
            TokenSigningKey::InMemory(key) => match outcome {
                Ok(token) => is_p256_key(key) && is_token_signed_by(token@, signed, key),
                Err(e) => e matches ConnectError::Jwt(error) && (!is_p256_key(key)
                    ==> is_refusal_of(error, key)),
            },
            TokenSigningKey::Custom(external) => exists|signed_by: Result<Vec<u8>, ConnectError>| #[trigger]
                external.signer.may_return(encode_utf8(signed), signed_by) && is_token_of(
                    outcome,
                    signed,
                    signed_by,
                ),
        }
    }
}

/// `outcome` is the token of `signed` and the signature, or the signer's own error.
pub open spec fn is_token_of(
    outcome: Result<AppStoreConnectToken, ConnectError>,
    signed: Seq<char>,
    signature: Result<Vec<u8>, ConnectError>,
) -> bool {
    match signature {
        Ok(bytes) => outcome matches Ok(token) && token@ == token_text(signed, bytes@),
        Err(e) => outcome == Err::<AppStoreConnectToken, ConnectError>(e),
    }
}

/// `r` is the encoder for the private key `der`, whatever the bytes are.
pub open spec fn is_der_encoder(
    key_id: Seq<char>,
    issuer_id: Seq<char>,
    der: Seq<u8>,
    r: Result<ConnectTokenEncoder, ConnectError>,
) -> bool {
    &&& r matches Ok(encoder) && encoder@ == (EncoderView {
        key_id,
        issuer_id,
        signing_key: TokenSigningKey::InMemory(ec_der_key(der)),
    })
    &&& is_ec_key_of(ec_der_key(der), der)
}

/// `r` is the encoder for the private key in the PEM file `data`, or the error. A key comes
/// only out of a PEM block tagged `PRIVATE KEY`, and is the ECDSA key that holds the block's
/// contents.
pub open spec fn is_pem_encoder(
    key_id: Seq<char>,
    issuer_id: Seq<char>,
    data: Seq<u8>,
    r: Result<ConnectTokenEncoder, ConnectError>,
) -> bool {
    match ec_pem_key(data) {
        Ok(key) => {
            &&& r matches Ok(encoder) && encoder@ == (EncoderView {
                key_id,
                issuer_id,
                signing_key: TokenSigningKey::InMemory(key),
            })
            &&& pem_block(data) matches Ok(block) && block.0 == "PRIVATE KEY"@ && key == ec_der_key(
                block.1,
            ) && is_ec_key_of(key, block.1)
        },
        Err(e) => r == Err::<ConnectTokenEncoder, ConnectError>(ConnectError::Jwt(e))
            && jwt_error_text(e) == "InvalidKeyFormat"@,
    }
}

/// The names of the claims differ.
proof fn lemma_claim_names()
    ensures
        "iss"@ != "iat"@,
        "iss"@ != "exp"@,
        "iss"@ != "aud"@,
        "iat"@ != "exp"@,
        "iat"@ != "aud"@,
        "exp"@ != "aud"@,
{
    reveal_strlit("iss");
    reveal_strlit("iat");
    reveal_strlit("exp");
    reveal_strlit("aud");
    assert("iss"@[1] != "iat"@[1]);
    assert("iss"@[1] != "exp"@[1]);
    assert("iss"@[1] != "aud"@[1]);
    assert("iat"@[1] != "exp"@[1]);
    assert("iat"@[1] != "aud"@[1]);
    assert("exp"@[1] != "aud"@[1]);
}

impl ConnectTokenRequest {
    /// The claims as a JSON object.
    pub(crate) fn to_object(&self) -> (object: serde_json::Map<String, serde_json::Value>)
        ensures
            object_members(object) == Some(
                claims_members(self.iss@, self.iat, self.exp, self.aud@),
            ),
    {
        proof {
            lemma_claim_names();
        }
        let mut object = new_object();
        insert_member(&mut object, "iss", JsonScalar::Text(self.iss.clone()));
        insert_member(&mut object, "iat", JsonScalar::Number(self.iat));
        insert_member(&mut object, "exp", JsonScalar::Number(self.exp));
        insert_member(&mut object, "aud", JsonScalar::Text(self.aud.clone()));
        assert(object_members(object)->0 =~= claims_members(
            self.iss@,
            self.iat,
            self.exp,
            self.aud@,
        ));
        object
    }
}

/// The token for what encoding and signing it with a key in memory came back with.
pub fn read_encoded_token(
    encoded: Result<String, jsonwebtoken::errors::Error>,
) -> (r: Result<AppStoreConnectToken, ConnectError>)
    ensures
        match encoded {
            Ok(token) => r == Ok::<AppStoreConnectToken, ConnectError>(token),
            Err(e) => r == Err::<AppStoreConnectToken, ConnectError>(ConnectError::Jwt(e)),
        },
{
    match encoded {
        Ok(token) => Ok(token),
        Err(e) => Err(ConnectError::Jwt(e)),
    }
}

/// The token for what a signer came back with: the signed text and the signature, or the
/// signer's error.
pub fn finish_token(
    signed: &str,
    signature: Result<Vec<u8>, ConnectError>,
) -> (r: Result<AppStoreConnectToken, ConnectError>)
    ensures
        is_token_of(r, signed@, signature),
{
    match signature {
        Ok(bytes) => Ok(attach_signature(signed, bytes.as_slice())),
        Err(e) => Err(e),
    }
}

impl ConnectTokenEncoder {
    /// Construct an instance from an [`EncodingKey`].
    ///
    /// This is the lowest level API for in-memory keys and what all in-memory key
    /// constructors use.
    pub fn from_jwt_encoding_key(
        key_id: String,
        issuer_id: String,
        encoding_key: EncodingKey,
    ) -> (encoder: Self)
        ensures
            encoder@ == (EncoderView {
                key_id: key_id@,
                issuer_id: issuer_id@,
                signing_key: TokenSigningKey::InMemory(encoding_key),
            }),
    {
        Self { key_id, issuer_id, signing_key: TokenSigningKey::InMemory(encoding_key) }
    }

    /// Construct an instance from an external [`Es256Signer`].
    ///
    /// Use this when the private key lives in a remote key store and cannot be loaded into
    /// memory.
    pub fn from_es256_signer(
        key_id: String,
        issuer_id: String,
        signer: Arc<dyn Es256Signer>,
    ) -> (encoder: Self)
        ensures
            encoder@.key_id == key_id@,
            encoder@.issuer_id == issuer_id@,
            encoder@.signing_key matches TokenSigningKey::Custom(external) && external.signer
                == signer,
    {
        let external = ExternalSigner { signer };
        Self::from_external(key_id, issuer_id, external)
    }

    /// Construct an instance that signs with `external`.
    pub(crate) fn from_external(
        key_id: String,
        issuer_id: String,
        external: ExternalSigner<Arc<dyn Es256Signer>>,
    ) -> (encoder: Self)
        ensures
            encoder@ == (EncoderView {
                key_id: key_id@,
                issuer_id: issuer_id@,
                signing_key: TokenSigningKey::Custom(external),
            }),
    {
        Self { key_id, issuer_id, signing_key: TokenSigningKey::Custom(external) }
    }

    /// Construct an instance from a DER encoded ECDSA private key.
    ///
    /// Any bytes are taken; whether they are a key shows when a token is issued.
    pub fn from_ecdsa_der(
        key_id: String,
        issuer_id: String,
        der_data: &[u8],
    ) -> (r: Result<Self, ConnectError>)
        ensures
            is_der_encoder(key_id@, issuer_id@, der_data@, r),
    {
        let encoding_key = EncodingKey::from_ec_der(der_data);

        Ok(Self::from_jwt_encoding_key(key_id, issuer_id, encoding_key))
    }

    /// Construct an instance from what reading a PEM encoded ECDSA private key came back with.
    pub fn from_ec_pem_outcome(
        key_id: String,
        issuer_id: String,
        key: Result<EncodingKey, jsonwebtoken::errors::Error>,
    ) -> (r: Result<Self, ConnectError>)
        ensures
            match key {
                Ok(k) => r matches Ok(encoder) && encoder@ == (EncoderView {
                    key_id: key_id@,
                    issuer_id: issuer_id@,
                    signing_key: TokenSigningKey::InMemory(k),
                }),
                Err(e) => r == Err::<Self, ConnectError>(ConnectError::Jwt(e)),
            },
    {
        match key {
            Ok(k) => Ok(Self::from_jwt_encoding_key(key_id, issuer_id, k)),
            Err(e) => Err(ConnectError::Jwt(e)),
        }
    }

    /// Construct an instance from a PEM encoded ECDSA private key.
    pub fn from_ecdsa_pem(
        key_id: String,
        issuer_id: String,
        pem_data: &[u8],
    ) -> (r: Result<Self, ConnectError>)
        ensures
            is_pem_encoder(key_id@, issuer_id@, pem_data@, r),
    {
        Self::from_ec_pem_outcome(key_id, issuer_id, EncodingKey::from_ec_pem(pem_data))
    }

    /// Construct an instance from an API key ID, e.g. `DEADBEEF42`, and from what the search
    /// for its `AuthKey_<id>.p8` file came back with.
    pub fn from_api_key_id(
        key_id: String,
        issuer_id: String,
        file: Result<Vec<u8>, MissingApiKey>,
    ) -> (r: Result<Self, ConnectError>)
        ensures
            match file {
                Ok(data) => is_pem_encoder(key_id@, issuer_id@, data@, r),
                Err(missing) => r == Err::<Self, ConnectError>(
                    ConnectError::MissingApiKey(missing),
                ),
            },
    {
        match file {
            Ok(data) => Self::from_ecdsa_pem(key_id, issuer_id, data.as_slice()),
            Err(missing) => Err(ConnectError::MissingApiKey(missing)),
        }
    }

    /// The header of every token.
    fn header(&self) -> (header: TokenHeader)
        ensures
            header.alg == TokenAlgorithm::ES256,
            header.kid@ == self@.key_id,
    {
        TokenHeader { alg: TokenAlgorithm::ES256, kid: self.key_id.clone() }
    }

    /// The claims of a token issued at `now` for `duration` seconds.
    pub fn claims(&self, now: u64, duration: u64) -> (claims: ConnectTokenRequest)
        requires
            now + duration <= u64::MAX,
        ensures
            claims.iss@ == self@.issuer_id,
            claims.iat == now,
            claims.exp == now + duration,
            claims.aud@ == "appstoreconnect-v1"@,
    {
        ConnectTokenRequest {
            iss: self.issuer_id.clone(),
            iat: now,
            exp: now + duration,
            aud: "appstoreconnect-v1".to_owned(),
        }
    }

    /// Mint a token that is issued at `now` and expires `duration` seconds later.
    pub fn token_at(&self, now: u64, duration: u64) -> (r: Result<AppStoreConnectToken, ConnectError>)
        requires
            now + duration <= u64::MAX,
        ensures
            self@.may_issue(now, duration, r),
    {
        let header = self.header();
        let claims = self.claims(now, duration).to_object();

        match &self.signing_key {
            TokenSigningKey::InMemory(encoding_key) => {
                let encoded = encode_token(&header, &claims, encoding_key);
                assert(encoded matches Ok(token) ==> is_token_signed_by(
                    token@,
                    self@.signed_text(now, duration),
                    *encoding_key,
                ));
                read_encoded_token(encoded)
            },
            TokenSigningKey::Custom(external) => {
                let header_json = match header_to_vec(&header) {
                    Ok(json) => json,
                    Err(e) => return Err(ConnectError::Json(e)),
                };
                let claims_json = match object_to_vec(&claims) {
                    Ok(json) => json,
                    Err(e) => return Err(ConnectError::Json(e)),
                };
                let signed = signing_input(header_json.as_slice(), claims_json.as_slice());
                assert(signed@ == self@.signed_text(now, duration));
                let signature = external.signer.sign_es256(signed.as_str().as_bytes());
                assert(external.signer.may_return(encode_utf8(signed@), signature));
                let r = finish_token(signed.as_str(), signature);
                assert(is_token_of(r, signed@, signature));
                r
            },
        }
    }

    /// Mint a new token.
    ///
    /// Using the private key and key metadata bound to this instance, we issue a new token
    /// for the requested duration, in seconds from now.
    pub fn new_token(&self, duration: u64) -> (r: Result<AppStoreConnectToken, ConnectError>)
        ensures
            exists|clock: Result<u64, SystemTimeError>|
                clock_may_read(clock) && #[trigger] self@.may_issue_at(clock, duration, r),
    {
        let clock = unix_time();
        proof {
            law_clock_reading_is_the_systems(clock);
        }
        let r = self.token_from_clock(clock, duration);
        assert(self@.may_issue_at(clock, duration, r));
        r
    }

    /// Mint a token that is issued at the time that reading the clock came back with.
    pub fn token_from_clock(
        &self,
        clock: Result<u64, SystemTimeError>,
        duration: u64,
    ) -> (r: Result<AppStoreConnectToken, ConnectError>)
        ensures
            self@.may_issue_at(clock, duration, r),
    {
        match clock {
            Ok(now) => {
                if duration > u64::MAX - now {
                    Err(ConnectError::ExpiryOutOfRange)
                } else {
                    self.token_at(now, duration)
                }
            },
            Err(_) => Err(ConnectError::ClockBeforeEpoch),
        }
    }
}

impl EncoderView {
    /// `outcome` is one that issuing a token can have when reading the clock comes back with
    /// `clock`: an error where there is no time, or where the token would expire out of range.
    pub open spec fn may_issue_at(
        self,
        clock: Result<u64, SystemTimeError>,
        duration: u64,
        outcome: Result<AppStoreConnectToken, ConnectError>,
    ) -> bool {
        match clock {
            Ok(now) => if now + duration > u64::MAX {
                outcome == Err::<AppStoreConnectToken, ConnectError>(
                    ConnectError::ExpiryOutOfRange,
                )
            } else {
                self.may_issue(now, duration, outcome)
            },
            Err(_) => outcome == Err::<AppStoreConnectToken, ConnectError>(
                ConnectError::ClockBeforeEpoch,
            ),
        }
    }
}

/// An issued token, whichever key signed it, is the text of its header, of its claims and of
/// some signature.
pub(crate) proof fn lemma_issued_token_text(
    encoder: EncoderView,
    now: u64,
    duration: u64,
    token: AppStoreConnectToken,
) -> (signature: Seq<u8>)
    requires
        encoder.may_issue(now, duration, Ok(token)),
    ensures
        token@ == token_text(encoder.signed_text(now, duration), signature),
{
    let signed = encoder.signed_text(now, duration);
    match encoder.signing_key {
        TokenSigningKey::InMemory(key) => {
            choose|signature: Seq<u8>|
                signature.len() == 64 && #[trigger] es256_signature(
                    key,
                    encode_utf8(signed),
                    signature,
                ) && token@ == token_text(signed, signature)
        },
        TokenSigningKey::Custom(external) => {
            let signed_by = choose|signed_by: Result<Vec<u8>, ConnectError>| #[trigger]
                external.signer.may_return(encode_utf8(signed), signed_by) && is_token_of(
                    Ok(token),
                    signed,
                    signed_by,
                );
            signed_by->Ok_0@
        },
    }
}

/// A key in memory that is not an ECDSA key with a P-256 private key issues nothing: it is
/// refused whenever a token is asked for.
pub proof fn law_other_keys_issue_nothing(
    encoder: EncoderView,
    key: EncodingKey,
    now: u64,
    duration: u64,
    outcome: Result<AppStoreConnectToken, ConnectError>,
)
    requires
        encoder.signing_key == TokenSigningKey::InMemory(key),
        !is_p256_key(key),
        encoder.may_issue(now, duration, outcome),
    ensures
        outcome matches Err(ConnectError::Jwt(error)) && is_refusal_of(error, key),
{
}

/// The bytes of a DER encoded key are judged only when a token is asked for: an encoder can be
/// made from any bytes, and issues nothing where they are no P-256 private key.
pub proof fn law_der_is_judged_when_signing(
    key_id: Seq<char>,
    issuer_id: Seq<char>,
    der: Seq<u8>,
    r: Result<ConnectTokenEncoder, ConnectError>,
    clock: Result<u64, SystemTimeError>,
    duration: u64,
    outcome: Result<AppStoreConnectToken, ConnectError>,
)
    requires
        is_der_encoder(key_id, issuer_id, der, r),
        r matches Ok(encoder) ==> encoder@.may_issue_at(clock, duration, outcome),
        !is_p256_pkcs8(der),
    ensures
        r is Ok,
        outcome is Err,
        clock matches Ok(now) && now + duration <= u64::MAX ==> (outcome matches Err(
            ConnectError::Jwt(error),
        ) && jwt_error_text(error) == "InvalidEcdsaKey"@),
{
}

/// A token carries what it was issued with, whichever key signed it: the key identifier, the
/// issuer, the time of issue and the time of expiry can all be read from its text.
pub proof fn law_token_carries_its_claims(
    a: EncoderView,
    a_now: u64,
    a_duration: u64,
    b: EncoderView,
    b_now: u64,
    b_duration: u64,
    token: AppStoreConnectToken,
)
    requires
        a_now + a_duration <= u64::MAX,
        b_now + b_duration <= u64::MAX,
        a.may_issue(a_now, a_duration, Ok(token)),
        b.may_issue(b_now, b_duration, Ok(token)),
    ensures
        a.key_id == b.key_id,
        a.issuer_id == b.issuer_id,
        a_now == b_now,
        a_duration == b_duration,
{
    let a_signature = lemma_issued_token_text(a, a_now, a_duration, token);
    let b_signature = lemma_issued_token_text(b, b_now, b_duration, token);
    let aud = "appstoreconnect-v1"@;
    let a_header = header_members(TokenAlgorithm::ES256, a.key_id);
    let b_header = header_members(TokenAlgorithm::ES256, b.key_id);
    let a_claims = claims_members(a.issuer_id, a_now, (a_now + a_duration) as u64, aud);
    let b_claims = claims_members(b.issuer_id, b_now, (b_now + b_duration) as u64, aud);
    law_token_determines_parts(a_header, a_claims, a_signature, b_header, b_claims, b_signature);
    assert(a_header[2] == b_header[2]);
    assert(a_claims[0] == b_claims[0]);
    assert(a_claims[1] == b_claims[1]);
    assert(a_claims[2] == b_claims[2]);
}

} // verus!
