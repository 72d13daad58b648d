//! Laws of token signing with keys held in AWS KMS.
use vstd::prelude::*;

use crate::digest::{sha256, MAX_DIGEST_INPUT};
use crate::error::ConnectError;
use crate::es256_kms::AwsKmsEs256Signer;
use crate::kms::{MessageType, SignRequest, SigningAlgorithmSpec};
use crate::p256_signature::{der_signature, is_raw_signature};

verus! {

/// A message can be digested exactly where its length in bits can be counted.
pub proof fn law_digest_bound_is_the_bit_count(len: nat)
    ensures
        len <= MAX_DIGEST_INPUT <==> 8 * len <= u64::MAX,
{
}

/// A signer keeps the key that it was made for.
pub proof fn law_signer_keeps_its_key(key_id: String, signer: AwsKmsEs256Signer, kept: &str)
    requires
        call_ensures(AwsKmsEs256Signer::new, (key_id,), signer),
        call_ensures(AwsKmsEs256Signer::key_id, (&signer,), kept),
    ensures
        kept@ == key_id@,
{
}

/// KMS is asked to sign the SHA-256 digest of the whole message, whatever its length, as a
/// digest, with ECDSA and with the signer's own key.
pub proof fn law_whole_message_is_digested(
    key_id: String,
    signer: AwsKmsEs256Signer,
    message: &[u8],
    request: SignRequest,
)
    requires
        message@.len() <= MAX_DIGEST_INPUT,
        call_ensures(AwsKmsEs256Signer::new, (key_id,), signer),
        call_ensures(AwsKmsEs256Signer::sign_request, (&signer, message), request),
    ensures
        request.message@ == sha256(message@),
        request.key_id@ == key_id@,
        request.message_type == MessageType::Digest,
        request.signing_algorithm == SigningAlgorithmSpec::EcdsaSha256,
{
}

/// Whatever KMS replies with is a signature of 64 bytes whose DER form is the reply, or an
/// error; the DER form of a signature is never refused.
pub proof fn law_reply_is_read_faithfully(
    key_id: String,
    signer: AwsKmsEs256Signer,
    der: Vec<u8>,
    r: Result<Vec<u8>, ConnectError>,
)
    requires
        call_ensures(AwsKmsEs256Signer::new, (key_id,), signer),
        call_ensures(AwsKmsEs256Signer::sign_es256, (&signer, Ok(Some(der))), r),
    ensures
        r matches Ok(raw) ==> is_raw_signature(raw@) && der_signature(raw@) == der@,
        forall|raw: Seq<u8>|
            is_raw_signature(raw) && #[trigger] der_signature(raw) == der@ ==> (r matches Ok(bytes)
                && bytes@ == raw),
        r matches Err(e) ==> (e matches ConnectError::Message(text) && text@
            == "failed to parse KMS ECDSA signature: "@ + "signature error"@),
{
    if exists|raw: Seq<u8>| is_raw_signature(raw) && #[trigger] der_signature(raw) == der@ {
        let raw = choose|raw: Seq<u8>|
            is_raw_signature(raw) && #[trigger] der_signature(raw) == der@;
        assert(r is Ok && r->Ok_0@ == raw);
    }
}

/// A reply without a signature and a failed request are errors that say so, the latter with
/// the key and with what failed.
pub proof fn law_failures_are_reported(
    key_id: String,
    signer: AwsKmsEs256Signer,
    failure: String,
    missing: Result<Vec<u8>, ConnectError>,
    failed: Result<Vec<u8>, ConnectError>,
)
    requires
        call_ensures(AwsKmsEs256Signer::new, (key_id,), signer),
        call_ensures(AwsKmsEs256Signer::sign_es256, (&signer, Ok(None)), missing),
        call_ensures(AwsKmsEs256Signer::sign_es256, (&signer, Err(failure)), failed),
    ensures
        missing matches Err(ConnectError::Message(text)) && text@
            == "AWS KMS Sign response missing signature"@,
        failed matches Err(ConnectError::Message(text)) && text@
            == "AWS KMS Sign failed for key "@ + key_id@ + ": "@ + failure@,
{
}

} // verus!
