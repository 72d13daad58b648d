//! Laws of code signing keys held in AWS KMS.
use vstd::prelude::*;
use x509_certificate::CapturedX509Certificate;

use crate::codesign_kms::{
    check_certificate_key, read_public_key_data, read_public_key_reply, resolve_key_algorithm,
    AppleCodesignError, AwsKmsPrivateKey, EcdsaCurve, KeyAlgorithm, RemoteSignError,
    SignatureAlgorithm, X509CertificateError,
};
use crate::digest::{x509_sha256, MAX_DIGEST_INPUT};
use crate::kms::{KeySpec, MessageType, PublicKeyReply, SignRequest, SigningAlgorithmSpec};
use crate::x509::{
    bytes_or_text, certificate_bytes, certificate_key_der, der_certificate, has_key_parameters,
    public_key_der, spki_public_key,
};

verus! {

/// `r` is the failure that reads `text`.
pub open spec fn reads<T>(r: Result<T, AppleCodesignError>, text: Seq<char>) -> bool {
    r is Err && (r->Err_0 matches AppleCodesignError::AwsKms(t) && t@ == text)
}

/// A constructed key has the algorithm of the key spec in the reply: RSA for the three RSA
/// specs, and ECDSA on the curve that the spec names.
pub proof fn law_key_has_the_algorithm_of_its_spec(
    key_id: String,
    certificate: Option<CapturedX509Certificate>,
    reply: PublicKeyReply,
    key: AwsKmsPrivateKey,
    algorithm: Option<KeyAlgorithm>,
)
    requires
        call_ensures(AwsKmsPrivateKey::new, (key_id, certificate, Ok(reply)), Ok(key)),
        call_ensures(AwsKmsPrivateKey::key_algorithm, (&key,), algorithm),
    ensures
        reply.key_spec is Some,
        match reply.key_spec->0 {
            KeySpec::Rsa2048 => algorithm == Some(KeyAlgorithm::Rsa),
            KeySpec::Rsa3072 => algorithm == Some(KeyAlgorithm::Rsa),
            KeySpec::Rsa4096 => algorithm == Some(KeyAlgorithm::Rsa),
            KeySpec::EccNistP256 => algorithm == Some(KeyAlgorithm::Ecdsa(EcdsaCurve::Secp256r1)),
            KeySpec::EccNistP384 => algorithm == Some(KeyAlgorithm::Ecdsa(EcdsaCurve::Secp384r1)),
            KeySpec::Other(_) => false,
        },
{
}

/// A constructed key has the identifier and the certificate that it was made with, and the
/// public key in the reply.
pub proof fn law_key_keeps_what_it_was_made_from(
    key_id: String,
    certificate: Option<CapturedX509Certificate>,
    reply: PublicKeyReply,
    key: AwsKmsPrivateKey,
    kept_id: &str,
    kept_certificate: Option<&CapturedX509Certificate>,
    public_key: &[u8],
)
    requires
        call_ensures(AwsKmsPrivateKey::new, (key_id, certificate, Ok(reply)), Ok(key)),
        call_ensures(AwsKmsPrivateKey::key_id, (&key,), kept_id),
        call_ensures(AwsKmsPrivateKey::certificate, (&key,), kept_certificate),
        call_ensures(AwsKmsPrivateKey::public_key_data, (&key,), public_key),
    ensures
        kept_id@ == key_id@,
        kept_certificate is Some <==> certificate is Some,
        certificate is Some ==> *kept_certificate->0 == certificate->0,
        reply.public_key is Some,
        spki_public_key(reply.public_key->0@) == Ok::<Seq<u8>, Seq<char>>(public_key@),
{
}

/// A key is constructed with a certificate exactly where it can be constructed without one and
/// the certificate's own public key is, byte for byte, the one in the reply. A certificate for
/// another key, and one whose public key cannot be encoded, are refused by name.
pub proof fn law_certificate_must_be_for_the_key(
    key_id: String,
    certificate: CapturedX509Certificate,
    encoded: Result<Vec<u8>, String>,
    reply: PublicKeyReply,
    with: Result<AwsKmsPrivateKey, AppleCodesignError>,
    without: Result<AwsKmsPrivateKey, AppleCodesignError>,
)
    requires
        call_ensures(certificate_key_der, (&certificate,), encoded),
        call_ensures(AwsKmsPrivateKey::new, (key_id, Some(certificate), Ok(reply)), with),
        call_ensures(AwsKmsPrivateKey::new, (key_id, None, Ok(reply)), without),
    ensures
        with is Ok <==> without is Ok && (encoded matches Ok(spki) && spki@
            == reply.public_key->0@),
        without matches Err(e) ==> (with matches Err(f) && f->AwsKms_0@ == e->AwsKms_0@),
        without is Ok ==> (encoded matches Err(text) ==> reads(
            with,
            "failed to encode certificate public key: "@ + text@,
        )),
        without is Ok ==> (encoded matches Ok(spki) ==> spki@ != reply.public_key->0@ ==> reads(
            with,
            "certificate public key does not match public key of KMS key "@ + key_id@
                + "; refusing to sign (was the certificate issued for a different key?)"@,
        )),
{
}

/// Without a certificate, a key is constructed exactly where KMS replied with a public key that
/// can be read and with a key spec for signing. Everything else is refused, and reads as the
/// first thing that is wrong.
pub proof fn law_construction_is_refused_by_name(
    key_id: String,
    reply: Result<PublicKeyReply, String>,
    r: Result<AwsKmsPrivateKey, AppleCodesignError>,
)
    requires
        call_ensures(AwsKmsPrivateKey::new, (key_id, None, reply), r),
    ensures
        match reply {
            Err(failure) => reads(
                r,
                "GetPublicKey failed for key "@ + key_id@ + ": "@ + failure@,
            ),
            Ok(PublicKeyReply { public_key: None, key_spec: _ }) => reads(
                r,
                "KMS GetPublicKey response missing public key"@,
            ),
            Ok(PublicKeyReply { public_key: Some(_), key_spec: None }) => reads(
                r,
                "unsupported KMS key spec for signing: "@ + "None"@,
            ),
            Ok(PublicKeyReply { public_key: Some(_), key_spec: Some(KeySpec::Other(name)) }) => reads(
                r,
                "unsupported KMS key spec for signing: "@ + ("Some("@ + name@ + ")"@),
            ),
            Ok(PublicKeyReply { public_key: Some(spki), key_spec: Some(_) }) => match spki_public_key(
                spki@,
            ) {
                Ok(_) => r is Ok,
                Err(text) => reads(r, "failed to parse KMS public key SPKI: "@ + text),
            },
        },
{
}

/// The key spec alone decides the algorithm, spec by spec.
pub proof fn law_key_spec_decides_the_algorithm(
    spec: Option<KeySpec>,
    r: Result<KeyAlgorithm, AppleCodesignError>,
)
    requires
        call_ensures(resolve_key_algorithm, (&spec,), r),
    ensures
        match spec {
            Some(KeySpec::Rsa2048) => r matches Ok(a) && a == KeyAlgorithm::Rsa,
            Some(KeySpec::Rsa3072) => r matches Ok(a) && a == KeyAlgorithm::Rsa,
            Some(KeySpec::Rsa4096) => r matches Ok(a) && a == KeyAlgorithm::Rsa,
            Some(KeySpec::EccNistP256) => r matches Ok(a) && a == KeyAlgorithm::Ecdsa(
                EcdsaCurve::Secp256r1,
            ),
            Some(KeySpec::EccNistP384) => r matches Ok(a) && a == KeyAlgorithm::Ecdsa(
                EcdsaCurve::Secp384r1,
            ),
            Some(KeySpec::Other(name)) => reads(
                r,
                "unsupported KMS key spec for signing: "@ + ("Some("@ + name@ + ")"@),
            ),
            None => reads(r, "unsupported KMS key spec for signing: "@ + "None"@),
        },
{
}

/// A usable reply gives its own public key and the algorithm of its own key spec.
pub proof fn law_reply_gives_its_own_key(
    key_id: &str,
    reply: PublicKeyReply,
    failure: String,
    resolved: Result<KeyAlgorithm, AppleCodesignError>,
    r: Result<(Vec<u8>, KeyAlgorithm), AppleCodesignError>,
    failed: Result<(Vec<u8>, KeyAlgorithm), AppleCodesignError>,
)
    requires
        call_ensures(resolve_key_algorithm, (&reply.key_spec,), resolved),
        call_ensures(read_public_key_reply, (key_id, Ok(reply)), r),
        call_ensures(read_public_key_reply, (key_id, Err(failure)), failed),
    ensures
        reads(failed, "GetPublicKey failed for key "@ + key_id@ + ": "@ + failure@),
        reply.public_key is None ==> reads(r, "KMS GetPublicKey response missing public key"@),
        reply.public_key is Some ==> match resolved {
            Ok(algorithm) => r matches Ok(read) && read.0@ == reply.public_key->0@ && read.1
                == algorithm,
            Err(e) => reads(r, e->AwsKms_0@),
        },
{
}

/// What was parsed or encoded is passed on, and what was not is reported with its error; a
/// certificate is for the key exactly where the two encodings are equal.
pub proof fn law_parsed_and_encoded_keys_are_read(
    key_id: &str,
    kms_spki: &[u8],
    outcome: Result<Vec<u8>, String>,
    data: Result<Vec<u8>, AppleCodesignError>,
    checked: Result<(), AppleCodesignError>,
)
    requires
        call_ensures(read_public_key_data, (outcome,), data),
        call_ensures(check_certificate_key, (key_id, kms_spki, outcome), checked),
    ensures
        match outcome {
            Ok(bytes) => {
                &&& data matches Ok(d) && d@ == bytes@
                &&& checked is Ok <==> bytes@ == kms_spki@
                &&& bytes@ != kms_spki@ ==> reads(
                    checked,
                    "certificate public key does not match public key of KMS key "@ + key_id@
                        + "; refusing to sign (was the certificate issued for a different key?)"@,
                )
            },
            Err(text) => {
                &&& reads(data, "failed to parse KMS public key SPKI: "@ + text@)
                &&& reads(checked, "failed to encode certificate public key: "@ + text@)
            },
        },
{
}

/// The public key of a certificate without key parameters is the certificate's own encoding;
/// otherwise it is that of the certificate that its bytes are as DER, and there is none where
/// they are not DER.
pub proof fn law_certificate_key_is_its_own(
    certificate: CapturedX509Certificate,
    r: Result<Vec<u8>, String>,
)
    requires
        call_ensures(certificate_key_der, (&certificate,), r),
    ensures
        !has_key_parameters(certificate) ==> bytes_or_text(r) == public_key_der(certificate),
        has_key_parameters(certificate) ==> match der_certificate(certificate_bytes(certificate)) {
            Ok(read) => bytes_or_text(r) == public_key_der(read),
            Err(text) => r matches Err(t) && t@ == text,
        },
{
}

/// KMS is asked to sign the SHA-256 digest of the whole message, whatever its length, as a
/// digest and with the key's own identifier. The algorithm is RSASSA-PKCS1-v1_5 for the RSA
/// specs and ECDSA for the ECC specs, both with SHA-256.
pub proof fn law_whole_message_is_digested(
    key_id: String,
    certificate: Option<CapturedX509Certificate>,
    reply: PublicKeyReply,
    key: AwsKmsPrivateKey,
    message: &[u8],
    r: Result<SignRequest, AppleCodesignError>,
)
    requires
        message@.len() <= MAX_DIGEST_INPUT,
        call_ensures(AwsKmsPrivateKey::new, (key_id, certificate, Ok(reply)), Ok(key)),
        call_ensures(AwsKmsPrivateKey::sign_message, (&key, message), r),
    ensures
        r is Ok,
        r->Ok_0.message@ == x509_sha256(message@),
        r->Ok_0.message@.len() == 32,
        r->Ok_0.key_id@ == key_id@,
        r->Ok_0.message_type == MessageType::Digest,
        r->Ok_0.signing_algorithm == (match reply.key_spec->0 {
            KeySpec::EccNistP256 => SigningAlgorithmSpec::EcdsaSha256,
            KeySpec::EccNistP384 => SigningAlgorithmSpec::EcdsaSha256,
            _ => SigningAlgorithmSpec::RsassaPkcs1V15Sha256,
        }),
{
}

/// Every message is put to KMS in the same way: two requests of a key have the key's own
/// identifier and algorithm, and differ in the digests of the messages alone. A key without a
/// signing algorithm signs no message.
pub proof fn law_requests_differ_in_the_digest_alone(
    key: AwsKmsPrivateKey,
    key_id: &str,
    spec: Result<SigningAlgorithmSpec, AppleCodesignError>,
    a: &[u8],
    b: &[u8],
    for_a: Result<SignRequest, AppleCodesignError>,
    for_b: Result<SignRequest, AppleCodesignError>,
)
    requires
        a@.len() <= MAX_DIGEST_INPUT,
        b@.len() <= MAX_DIGEST_INPUT,
        call_ensures(AwsKmsPrivateKey::key_id, (&key,), key_id),
        call_ensures(AwsKmsPrivateKey::signing_algorithm_spec, (&key,), spec),
        call_ensures(AwsKmsPrivateKey::sign_message, (&key, a), for_a),
        call_ensures(AwsKmsPrivateKey::sign_message, (&key, b), for_b),
    ensures
        for_a is Ok <==> spec is Ok,
        for_b is Ok <==> spec is Ok,
        spec matches Ok(algorithm) ==> {
            &&& for_a->Ok_0.message@ == x509_sha256(a@)
            &&& for_b->Ok_0.message@ == x509_sha256(b@)
            &&& for_a->Ok_0.key_id@ == key_id@ && for_b->Ok_0.key_id@ == key_id@
            &&& for_a->Ok_0.message_type == MessageType::Digest && for_b->Ok_0.message_type
                == MessageType::Digest
            &&& for_a->Ok_0.signing_algorithm == algorithm && for_b->Ok_0.signing_algorithm
                == algorithm
        },
        spec matches Err(e) ==> reads(for_a, e->AwsKms_0@) && reads(for_b, e->AwsKms_0@),
{
}

/// A digest is put to KMS unchanged, with the key's own identifier and the algorithm given.
pub proof fn law_digest_is_passed_on(
    key: AwsKmsPrivateKey,
    key_id: &str,
    digest: Vec<u8>,
    algorithm: SigningAlgorithmSpec,
    request: SignRequest,
)
    requires
        call_ensures(AwsKmsPrivateKey::key_id, (&key,), key_id),
        call_ensures(AwsKmsPrivateKey::kms_sign_digest, (&key, digest, algorithm), request),
    ensures
        request.message@ == digest@,
        request.key_id@ == key_id@,
        request.message_type == MessageType::Digest,
        request.signing_algorithm == algorithm,
{
}

/// The signature in the reply of KMS is passed on unchanged; a reply without one and a failed
/// request are errors that say so.
pub proof fn law_signature_is_passed_on(
    key: AwsKmsPrivateKey,
    key_id: &str,
    signature: Vec<u8>,
    failure: String,
    r: Result<Vec<u8>, AppleCodesignError>,
    missing: Result<Vec<u8>, AppleCodesignError>,
    failed: Result<Vec<u8>, AppleCodesignError>,
)
    requires
        call_ensures(AwsKmsPrivateKey::key_id, (&key,), key_id),
        call_ensures(AwsKmsPrivateKey::read_sign_reply, (&key, Ok(Some(signature))), r),
        call_ensures(AwsKmsPrivateKey::read_sign_reply, (&key, Ok(None)), missing),
        call_ensures(AwsKmsPrivateKey::read_sign_reply, (&key, Err(failure)), failed),
    ensures
        r matches Ok(bytes) && bytes@ == signature@,
        reads(missing, "KMS Sign response missing signature"@),
        reads(failed, "Sign failed for key "@ + key_id@ + ": "@ + failure@),
{
}

/// The key's algorithm decides how KMS signs and how signatures are labelled: RSA signs and is
/// labelled as RSA, ECDSA as ECDSA, and Ed25519 does neither.
pub proof fn law_algorithms_follow_the_key(
    key: AwsKmsPrivateKey,
    algorithm: KeyAlgorithm,
    spec: Result<SigningAlgorithmSpec, AppleCodesignError>,
    label: Result<SignatureAlgorithm, X509CertificateError>,
)
    requires
        call_ensures(AwsKmsPrivateKey::key_algorithm, (&key,), Some(algorithm)),
        call_ensures(AwsKmsPrivateKey::signing_algorithm_spec, (&key,), spec),
        call_ensures(AwsKmsPrivateKey::signature_algorithm, (&key,), label),
    ensures
        agrees(algorithm, spec, label),
{
}

/// The algorithms of a key by itself, without a key in KMS, and how they read.
pub proof fn law_algorithms_by_themselves(
    algorithm: KeyAlgorithm,
    spec: Result<SigningAlgorithmSpec, AppleCodesignError>,
    label: Result<SignatureAlgorithm, X509CertificateError>,
    text: String,
)
    requires
        call_ensures(KeyAlgorithm::signing_algorithm_spec, (&algorithm,), spec),
        call_ensures(KeyAlgorithm::signature_algorithm, (&algorithm,), label),
        call_ensures(KeyAlgorithm::to_text, (&algorithm,), text),
    ensures
        agrees(algorithm, spec, label),
        text@ == (match algorithm {
            KeyAlgorithm::Rsa => "Rsa"@,
            KeyAlgorithm::Ecdsa(EcdsaCurve::Secp256r1) => "Ecdsa(Secp256r1)"@,
            KeyAlgorithm::Ecdsa(EcdsaCurve::Secp384r1) => "Ecdsa(Secp384r1)"@,
            KeyAlgorithm::Ed25519 => "Ed25519"@,
        }),
{
}

/// `spec` and `label` are those of a key with `algorithm`.
pub open spec fn agrees(
    algorithm: KeyAlgorithm,
    spec: Result<SigningAlgorithmSpec, AppleCodesignError>,
    label: Result<SignatureAlgorithm, X509CertificateError>,
) -> bool {
    match algorithm {
        KeyAlgorithm::Rsa => {
            &&& spec matches Ok(s) && s == SigningAlgorithmSpec::RsassaPkcs1V15Sha256
            &&& label matches Ok(l) && l == SignatureAlgorithm::RsaSha256
        },
        KeyAlgorithm::Ecdsa(_) => {
            &&& spec matches Ok(s) && s == SigningAlgorithmSpec::EcdsaSha256
            &&& label matches Ok(l) && l == SignatureAlgorithm::EcdsaSha256
        },
        KeyAlgorithm::Ed25519 => {
            &&& reads(spec, "unsupported key algorithm for AWS KMS signing: "@ + "Ed25519"@)
            &&& label matches Err(X509CertificateError::UnknownSignatureAlgorithm(t)) && t@
                == "unsupported key algorithm for AWS KMS signing: "@ + "Ed25519"@
        },
    }
}

/// A signature is given out unchanged, with the label of the key; a failure to sign is reported
/// with its text; and a key without a label gives the error of the label.
pub proof fn law_signature_is_labelled(
    key: AwsKmsPrivateKey,
    label: Result<SignatureAlgorithm, X509CertificateError>,
    signature: Result<Vec<u8>, AppleCodesignError>,
    r: Result<(Vec<u8>, SignatureAlgorithm), X509CertificateError>,
)
    requires
        call_ensures(AwsKmsPrivateKey::signature_algorithm, (&key,), label),
        call_ensures(AwsKmsPrivateKey::sign, (&key, signature), r),
    ensures
        match label {
            Ok(l) => match signature {
                Ok(bytes) => r matches Ok(signed) && signed.0@ == bytes@ && signed.1 == l,
                Err(AppleCodesignError::AwsKms(text)) => r matches Err(
                    X509CertificateError::Other(t),
                ) && t@ == "AWS KMS signing error: "@ + text@,
            },
            Err(e) => r is Err && (r->Err_0 matches X509CertificateError::UnknownSignatureAlgorithm(
                t,
            ) && e->UnknownSignatureAlgorithm_0@ == t@ && e is UnknownSignatureAlgorithm),
        },
{
}

/// An error reads as the text that it carries.
pub proof fn law_error_reads_as_its_text(error: AppleCodesignError, text: &str)
    requires
        call_ensures(AppleCodesignError::message, (&error,), text),
    ensures
        text@ == error->AwsKms_0@,
{
}

/// Private key material is never given out, nothing is ever decrypted, and nothing is left to
/// do at the end.
pub proof fn law_private_material_stays_in_kms(
    key: AwsKmsPrivateKey,
    ciphertext: &[u8],
    data: Option<Vec<u8>>,
    primes: Result<Option<(Vec<u8>, Vec<u8>)>, X509CertificateError>,
    decrypted: Result<Vec<u8>, RemoteSignError>,
    finished: Result<(), AppleCodesignError>,
)
    requires
        call_ensures(AwsKmsPrivateKey::private_key_data, (&key,), data),
        call_ensures(AwsKmsPrivateKey::rsa_primes, (&key,), primes),
        call_ensures(AwsKmsPrivateKey::decrypt, (&key, ciphertext), decrypted),
        call_ensures(AwsKmsPrivateKey::finish, (&key,), finished),
    ensures
        data is None,
        primes matches Ok(p) && p is None,
        decrypted matches Err(RemoteSignError::Crypto(text)) && text@
            == "decryption via AWS KMS signing keys is not supported"@,
        finished is Ok,
{
}

} // verus!
