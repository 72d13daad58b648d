//! ES256 token signing with keys held in AWS KMS.
//!
//! This allows the App Store Connect API private key (an ECDSA P-256 key) to live in AWS KMS,
//! so that the key material is never exposed to the machine that issues tokens.
use vstd::prelude::*;

use crate::api_token::{is_token_of, AppStoreConnectToken};
use crate::digest::{sha256, sha256_digest, MAX_DIGEST_INPUT};
use crate::error::ConnectError;
use crate::jwt::token_text;
use crate::kms::{MessageType, SignReply, SignRequest, SignRequestView, SigningAlgorithmSpec};
use crate::p256_signature::{der_signature, is_raw_signature, law_der_determines_raw_signature, raw_from_der};
use crate::text::{join2, join4};

verus! {

/// Signs with an ECDSA P-256 key held in AWS KMS: it makes the request to KMS, and reads the
/// reply.
#[derive(Clone)]
pub struct AwsKmsEs256Signer {
    key_id: String,
}

impl View for AwsKmsEs256Signer {
    type V = Seq<char>;

    closed spec fn view(&self) -> Seq<char> {
        self.key_id@
    }
}

/// `r` is the signature in `reply` for the key `key_id`, in fixed width form, or the error.
pub open spec fn is_signature_in(
    key_id: Seq<char>,
    reply: SignReply,
    r: Result<Vec<u8>, ConnectError>,
) -> bool {
    match reply {
        Ok(Some(der)) => {
            &&& forall|raw: Seq<u8>|
                is_raw_signature(raw) && der@ == #[trigger] der_signature(raw) ==> (r matches Ok(
                    bytes,
                ) && bytes@ == raw)
            &&& (forall|raw: Seq<u8>| is_raw_signature(raw) ==> der@ != #[trigger] der_signature(raw))
                ==> (r matches Err(ConnectError::Message(text)) && text@
                == "failed to parse KMS ECDSA signature: "@ + "signature error"@)
        },
        Ok(None) => r matches Err(ConnectError::Message(text)) && text@
            == "AWS KMS Sign response missing signature"@,
        Err(e) => r matches Err(ConnectError::Message(text)) && text@
            == "AWS KMS Sign failed for key "@ + key_id + ": "@ + e@,
    }
}

impl AwsKmsEs256Signer {
    /// Construct an instance from a KMS key ID, key ARN, or alias.
    pub fn new(key_id: String) -> (signer: Self)
        ensures
            signer@ == key_id@,
    {
        Self { key_id }
    }

    /// The KMS key ID, key ARN, or alias.
    pub fn key_id(&self) -> (key_id: &str)
        ensures
            key_id@ == self@,
    {
        self.key_id.as_str()
    }

    /// The request that asks KMS to sign `message`: the message is digested here.
    pub fn sign_request(&self, message: &[u8]) -> (request: SignRequest)
        requires
            message@.len() <= MAX_DIGEST_INPUT,
        ensures
            request@ == (SignRequestView {
                key_id: self@,
                message: sha256(message@),
                message_type: MessageType::Digest,
                signing_algorithm: SigningAlgorithmSpec::EcdsaSha256,
            }),
            request.message@.len() == 32,
    {
        SignRequest {
            key_id: self.key_id.clone(),
            message: sha256_digest(message),
            message_type: MessageType::Digest,
            signing_algorithm: SigningAlgorithmSpec::EcdsaSha256,
        }
    }

    /// The signature in the reply of KMS.
    ///
    /// KMS returns ECDSA signatures in ASN.1 DER form. JWS ES256 requires the raw 64 byte
    /// encoding of `r` and `s` (RFC 7518 section 3.4).
    pub fn sign_es256(&self, reply: SignReply) -> (r: Result<Vec<u8>, ConnectError>)
        ensures
            is_signature_in(self@, reply, r),
            r matches Ok(bytes) ==> bytes@.len() == 64,
    {
        let signature = match reply {
            Ok(signature) => signature,
            Err(e) => {
                return Err(
                    ConnectError::Message(
                        join4(
                            "AWS KMS Sign failed for key ",
                            self.key_id.as_str(),
                            ": ",
                            e.as_str(),
                        ),
                    ),
                );
            },
        };

        let der = match signature {
            Some(der) => der,
            None => {
                return Err(
                    ConnectError::Message("AWS KMS Sign response missing signature".to_owned()),
                );
            },
        };

        match raw_from_der(der.as_slice()) {
            Ok(raw) => {
                proof {
                    assert forall|other: Seq<u8>|
                        is_raw_signature(other) && der@ == #[trigger] der_signature(
                            other,
                        ) implies other == raw@ by {
                        law_der_determines_raw_signature(other, raw@);
                    }
                }
                Ok(raw)
            },
            Err(e) => Err(
                ConnectError::Message(join2("failed to parse KMS ECDSA signature: ", e.as_str())),
            ),
        }
    }
}

/// A signature comes through unchanged: the reply with the DER form of a P-256 signature is
/// read as the signature itself.
pub proof fn law_signature_comes_through(
    key_id: Seq<char>,
    raw: Seq<u8>,
    der: Vec<u8>,
    r: Result<Vec<u8>, ConnectError>,
)
    requires
        is_raw_signature(raw),
        der@ == der_signature(raw),
        is_signature_in(key_id, Ok(Some(der)), r),
    ensures
        r matches Ok(bytes) && bytes@ == raw && bytes@.len() == 64,
{
}

/// A token signed in KMS carries the signature that KMS made: its last segment is the fixed
/// width form of the DER signature in the reply.
pub proof fn law_token_carries_kms_signature(
    key_id: Seq<char>,
    raw: Seq<u8>,
    der: Vec<u8>,
    signature: Result<Vec<u8>, ConnectError>,
    signed: Seq<char>,
    outcome: Result<AppStoreConnectToken, ConnectError>,
)
    requires
        is_raw_signature(raw),
        der@ == der_signature(raw),
        is_signature_in(key_id, Ok(Some(der)), signature),
        is_token_of(outcome, signed, signature),
    ensures
        outcome matches Ok(token) && token@ == token_text(signed, raw),
{
    law_signature_comes_through(key_id, raw, der, signature);
}

} // verus!
