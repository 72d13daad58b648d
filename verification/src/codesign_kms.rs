//! Code signing keys held in AWS KMS.
//!
//! The private key material lives in AWS KMS and never leaves it. Signing operations are
//! performed remotely via the KMS `Sign` API.
use vstd::prelude::*;
use x509_certificate::CapturedX509Certificate;

use crate::digest::{x509_sha256, x509_sha256_digest, MAX_DIGEST_INPUT};
use crate::kms::{
    KeySpec, MessageType, PublicKeyReply, SignReply, SignRequest, SignRequestView,
    SigningAlgorithmSpec,
};
use crate::text::{join2, join3, join4};
use crate::x509::{certificate_key_der, certificate_spki, parse_spki, spki_public_key};

verus! {

/// A curve used with ECDSA.
#[derive(Clone, Copy, Debug, PartialEq, Eq, Structural)]
pub enum EcdsaCurve {
    /// NIST P-256.
    Secp256r1,
    /// NIST P-384.
    Secp384r1,
}

/// The algorithm of a private key.
#[derive(Clone, Copy, Debug, PartialEq, Eq, Structural)]
pub enum KeyAlgorithm {
    /// RSA.
    Rsa,
    /// ECDSA on a curve.
    Ecdsa(EcdsaCurve),
    /// Ed25519.
    Ed25519,
}

/// The algorithm of a signature.
#[derive(Clone, Copy, Debug, PartialEq, Eq, Structural)]
pub enum SignatureAlgorithm {
    /// RSA with SHA-256.
    RsaSha256,
    /// ECDSA with SHA-256.
    EcdsaSha256,
}

/// What can go wrong with code signing keys.
#[derive(Debug)]
pub enum AppleCodesignError {
    /// AWS KMS failed, or its reply cannot be used, with how that reads.
    AwsKms(String),
}

/// What can go wrong with certificates and signatures.
#[derive(Debug)]
pub enum X509CertificateError {
    /// The signature algorithm is not known.
    UnknownSignatureAlgorithm(String),
    /// Any other failure, with how it reads.
    Other(String),
}

/// What can go wrong with remote signing sessions.
#[derive(Debug)]
pub enum RemoteSignError {
    /// A cryptographic operation failed.
    Crypto(String),
}

/// `r` is the failure of AWS KMS that reads `text`.
pub open spec fn fails_with<T>(r: Result<T, AppleCodesignError>, text: Seq<char>) -> bool {
    r matches Err(AppleCodesignError::AwsKms(t)) && t@ == text
}

/// A signing key backed by AWS KMS.
///
/// The instance pairs a KMS asymmetric signing key (identified by key ID, key ARN, or alias)
/// with an optional X.509 certificate whose subject public key is the public half of the KMS
/// key. Without a certificate, the instance can still be used for operations that only
/// require the key pair, like generating a certificate signing request.
#[derive(Clone)]
pub struct AwsKmsPrivateKey {
    key_id: String,
    key_algorithm: KeyAlgorithm,
    public_key_data: Vec<u8>,
    certificate: Option<CapturedX509Certificate>,
}

/// What an [`AwsKmsPrivateKey`] holds.
pub struct PrivateKeyView {
    /// The KMS key ID, key ARN, or alias.
    pub key_id: Seq<char>,
    /// The key's algorithm.
    pub key_algorithm: KeyAlgorithm,
    /// The raw public key.
    pub public_key_data: Seq<u8>,
    /// The certificate paired with the key.
    pub certificate: Option<CapturedX509Certificate>,
}

impl View for AwsKmsPrivateKey {
    type V = PrivateKeyView;

    closed spec fn view(&self) -> PrivateKeyView {
        PrivateKeyView {
            key_id: self.key_id@,
            key_algorithm: self.key_algorithm,
            public_key_data: self.public_key_data@,
            certificate: self.certificate,
        }
    }
}

/// The key algorithm of a KMS key, if it can be used for signing.
pub open spec fn key_algorithm_of(spec: Option<KeySpec>) -> Option<KeyAlgorithm> {
    match spec {
        Some(KeySpec::Rsa2048) | Some(KeySpec::Rsa3072) | Some(KeySpec::Rsa4096) => Some(
            KeyAlgorithm::Rsa,
        ),
        Some(KeySpec::EccNistP256) => Some(KeyAlgorithm::Ecdsa(EcdsaCurve::Secp256r1)),
        Some(KeySpec::EccNistP384) => Some(KeyAlgorithm::Ecdsa(EcdsaCurve::Secp384r1)),
        _ => None,
    }
}

/// How an unsupported key spec reads.
pub open spec fn unsupported_spec_text(spec: Option<KeySpec>) -> Seq<char> {
    match spec {
        Some(KeySpec::Other(name)) => "Some("@ + name@ + ")"@,
        _ => "None"@,
    }
}

/// The key algorithm of a KMS key, or an error where it cannot be used for signing.
pub fn resolve_key_algorithm(spec: &Option<KeySpec>) -> (r: Result<KeyAlgorithm, AppleCodesignError>)
    ensures
        match key_algorithm_of(*spec) {
            Some(algorithm) => r == Ok::<KeyAlgorithm, AppleCodesignError>(algorithm),
            None => fails_with(
                r,
                "unsupported KMS key spec for signing: "@ + unsupported_spec_text(*spec),
            ),
        },
{
    match spec {
        Some(KeySpec::Rsa2048) | Some(KeySpec::Rsa3072) | Some(KeySpec::Rsa4096) => Ok(
            KeyAlgorithm::Rsa,
        ),
        Some(KeySpec::EccNistP256) => Ok(KeyAlgorithm::Ecdsa(EcdsaCurve::Secp256r1)),
        Some(KeySpec::EccNistP384) => Ok(KeyAlgorithm::Ecdsa(EcdsaCurve::Secp384r1)),
        Some(KeySpec::Other(name)) => {
            let text = join3("Some(", name.as_str(), ")");
            Err(
                AppleCodesignError::AwsKms(
                    join2("unsupported KMS key spec for signing: ", text.as_str()),
                ),
            )
        },
        None => Err(
            AppleCodesignError::AwsKms(join2("unsupported KMS key spec for signing: ", "None")),
        ),
    }
}

/// The subject public key info and the key algorithm in the reply to `GetPublicKey`.
pub fn read_public_key_reply(
    key_id: &str,
    reply: Result<PublicKeyReply, String>,
) -> (r: Result<(Vec<u8>, KeyAlgorithm), AppleCodesignError>)
    ensures
        match reply {
            Err(e) => fails_with(r, "GetPublicKey failed for key "@ + key_id@ + ": "@ + e@),
            Ok(response) => match (response.public_key, key_algorithm_of(response.key_spec)) {
                (None, _) => fails_with(r, "KMS GetPublicKey response missing public key"@),
                (Some(_), None) => fails_with(
                    r,
                    "unsupported KMS key spec for signing: "@ + unsupported_spec_text(
                        response.key_spec,
                    ),
                ),
                (Some(spki), Some(algorithm)) => r == Ok::<
                    (Vec<u8>, KeyAlgorithm),
                    AppleCodesignError,
                >((spki, algorithm)),
            },
        },
{
    let response = match reply {
        Ok(response) => response,
        Err(e) => {
            return Err(
                AppleCodesignError::AwsKms(
                    join4("GetPublicKey failed for key ", key_id, ": ", e.as_str()),
                ),
            );
        },
    };

    let spki = match response.public_key {
        Some(spki) => spki,
        None => {
            return Err(
                AppleCodesignError::AwsKms(
                    "KMS GetPublicKey response missing public key".to_owned(),
                ),
            );
        },
    };

    match resolve_key_algorithm(&response.key_spec) {
        Ok(algorithm) => Ok((spki, algorithm)),
        Err(e) => Err(e),
    }
}

/// The raw public key, from what parsing the subject public key info came back with.
pub fn read_public_key_data(
    parsed: Result<Vec<u8>, String>,
) -> (r: Result<Vec<u8>, AppleCodesignError>)
    ensures
        match parsed {
            Ok(data) => r == Ok::<Vec<u8>, AppleCodesignError>(data),
            Err(e) => fails_with(r, "failed to parse KMS public key SPKI: "@ + e@),
        },
{
    match parsed {
        Ok(data) => Ok(data),
        Err(e) => Err(
            AppleCodesignError::AwsKms(join2("failed to parse KMS public key SPKI: ", e.as_str())),
        ),
    }
}

/// The two byte strings are equal.
fn same_bytes(a: &[u8], b: &[u8]) -> (same: bool)
    ensures
        same == (a@ == b@),
{
    if a.len() != b.len() {
        return false;
    }
    let mut i: usize = 0;
    while i < a.len()
        invariant
            a@.len() == b@.len(),
            i <= a@.len(),
            forall|j: int| 0 <= j < i ==> a@[j] == b@[j],
        decreases a@.len() - i,
    {
        if a[i] != b[i] {
            return false;
        }
        i = i + 1;
    }
    assert(a@ =~= b@);
    true
}

/// What the refusal of a certificate for another key reads.
pub open spec fn mismatch_text(key_id: Seq<char>) -> Seq<char> {
    "certificate public key does not match public key of KMS key "@ + key_id
        + "; refusing to sign (was the certificate issued for a different key?)"@
}

/// Checks that a certificate is for the KMS key, from what encoding the certificate's public
/// key came back with.
pub fn check_certificate_key(
    key_id: &str,
    kms_spki: &[u8],
    encoded: Result<Vec<u8>, String>,
) -> (r: Result<(), AppleCodesignError>)
    ensures
        match encoded {
            Err(e) => fails_with(r, "failed to encode certificate public key: "@ + e@),
            Ok(cert_spki) => if cert_spki@ == kms_spki@ {
                r is Ok
            } else {
                fails_with(r, mismatch_text(key_id@))
            },
        },
{
    let cert_spki = match encoded {
        Ok(cert_spki) => cert_spki,
        Err(e) => {
            return Err(
                AppleCodesignError::AwsKms(
                    join2("failed to encode certificate public key: ", e.as_str()),
                ),
            );
        },
    };

    if same_bytes(kms_spki, cert_spki.as_slice()) {
        Ok(())
    } else {
        Err(
            AppleCodesignError::AwsKms(
                join3(
                    "certificate public key does not match public key of KMS key ",
                    key_id,
                    "; refusing to sign (was the certificate issued for a different key?)",
                ),
            ),
        )
    }
}

/// `r` is the outcome of pairing the KMS key with subject public key info `spki` with the
/// certificate, if there is one.
pub open spec fn is_paired(
    key_id: Seq<char>,
    certificate: Option<CapturedX509Certificate>,
    algorithm: KeyAlgorithm,
    spki: Seq<u8>,
    r: Result<AwsKmsPrivateKey, AppleCodesignError>,
) -> bool {
    match spki_public_key(spki) {
        Err(e) => fails_with(r, "failed to parse KMS public key SPKI: "@ + e),
        Ok(data) => match certificate {
            Some(cert) if certificate_spki(cert) is Err => fails_with(
                r,
                "failed to encode certificate public key: "@ + certificate_spki(cert)->Err_0,
            ),
            Some(cert) if certificate_spki(cert)->Ok_0 != spki => fails_with(
                r,
                mismatch_text(key_id),
            ),
            _ => r matches Ok(key) && key@ == (PrivateKeyView {
                key_id,
                key_algorithm: algorithm,
                public_key_data: data,
                certificate,
            }),
        },
    }
}

impl KeyAlgorithm {
    /// The KMS signing algorithm for keys of this algorithm, if they can sign.
    pub open spec fn kms_algorithm(self) -> Option<SigningAlgorithmSpec> {
        match self {
            KeyAlgorithm::Rsa => Some(SigningAlgorithmSpec::RsassaPkcs1V15Sha256),
            KeyAlgorithm::Ecdsa(_) => Some(SigningAlgorithmSpec::EcdsaSha256),
            KeyAlgorithm::Ed25519 => None,
        }
    }

    /// The algorithm of signatures that keys of this algorithm make, if they can sign.
    pub open spec fn x509_algorithm(self) -> Option<SignatureAlgorithm> {
        match self {
            KeyAlgorithm::Rsa => Some(SignatureAlgorithm::RsaSha256),
            KeyAlgorithm::Ecdsa(_) => Some(SignatureAlgorithm::EcdsaSha256),
            KeyAlgorithm::Ed25519 => None,
        }
    }

    /// What the refusal to sign with keys of this algorithm reads.
    pub open spec fn unsupported_text(self) -> Seq<char> {
        "unsupported key algorithm for AWS KMS signing: "@ + self.text()
    }

    /// How the algorithm reads in a message.
    pub open spec fn text(self) -> Seq<char> {
        match self {
            KeyAlgorithm::Rsa => "Rsa"@,
            KeyAlgorithm::Ecdsa(EcdsaCurve::Secp256r1) => "Ecdsa(Secp256r1)"@,
            KeyAlgorithm::Ecdsa(EcdsaCurve::Secp384r1) => "Ecdsa(Secp384r1)"@,
            KeyAlgorithm::Ed25519 => "Ed25519"@,
        }
    }

    /// How the algorithm reads in a message.
    pub fn to_text(&self) -> (text: String)
        ensures
            text@ == self.text(),
    {
        match self {
            KeyAlgorithm::Rsa => "Rsa".to_owned(),
            KeyAlgorithm::Ecdsa(EcdsaCurve::Secp256r1) => "Ecdsa(Secp256r1)".to_owned(),
            KeyAlgorithm::Ecdsa(EcdsaCurve::Secp384r1) => "Ecdsa(Secp384r1)".to_owned(),
            KeyAlgorithm::Ed25519 => "Ed25519".to_owned(),
        }
    }

    /// The KMS signing algorithm for keys of this algorithm.
    pub fn signing_algorithm_spec(&self) -> (r: Result<SigningAlgorithmSpec, AppleCodesignError>)
        ensures
            match self.kms_algorithm() {
                Some(spec) => r == Ok::<SigningAlgorithmSpec, AppleCodesignError>(spec),
                None => fails_with(r, self.unsupported_text()),
            },
    {
        match self {
            KeyAlgorithm::Rsa => Ok(SigningAlgorithmSpec::RsassaPkcs1V15Sha256),
            KeyAlgorithm::Ecdsa(_) => Ok(SigningAlgorithmSpec::EcdsaSha256),
            algorithm => Err(
                AppleCodesignError::AwsKms(
                    join2(
                        "unsupported key algorithm for AWS KMS signing: ",
                        algorithm.to_text().as_str(),
                    ),
                ),
            ),
        }
    }

    /// The algorithm of signatures that keys of this algorithm make.
    pub fn signature_algorithm(&self) -> (r: Result<SignatureAlgorithm, X509CertificateError>)
        ensures
            match self.x509_algorithm() {
                Some(algorithm) => r == Ok::<SignatureAlgorithm, X509CertificateError>(algorithm),
                None => r matches Err(X509CertificateError::UnknownSignatureAlgorithm(t)) && t@
                    == self.unsupported_text(),
            },
    {
        match self {
            KeyAlgorithm::Rsa => Ok(SignatureAlgorithm::RsaSha256),
            KeyAlgorithm::Ecdsa(_) => Ok(SignatureAlgorithm::EcdsaSha256),
            algorithm => Err(
                X509CertificateError::UnknownSignatureAlgorithm(
                    join2(
                        "unsupported key algorithm for AWS KMS signing: ",
                        algorithm.to_text().as_str(),
                    ),
                ),
            ),
        }
    }
}

/// `r` is the outcome of constructing a key from the reply to `GetPublicKey`.
pub open spec fn is_constructed(
    key_id: Seq<char>,
    certificate: Option<CapturedX509Certificate>,
    reply: Result<PublicKeyReply, String>,
    r: Result<AwsKmsPrivateKey, AppleCodesignError>,
) -> bool {
    match reply {
        Err(e) => fails_with(r, "GetPublicKey failed for key "@ + key_id + ": "@ + e@),
        Ok(response) => match (response.public_key, key_algorithm_of(response.key_spec)) {
            (None, _) => fails_with(r, "KMS GetPublicKey response missing public key"@),
            (Some(_), None) => fails_with(
                r,
                "unsupported KMS key spec for signing: "@ + unsupported_spec_text(
                    response.key_spec,
                ),
            ),
            (Some(spki), Some(algorithm)) => is_paired(key_id, certificate, algorithm, spki@, r),
        },
    }
}

/// The signature in the reply of KMS to the request of key `key_id`, or the error.
pub open spec fn is_reply_signature(
    key_id: Seq<char>,
    reply: SignReply,
    r: Result<Vec<u8>, AppleCodesignError>,
) -> bool {
    match reply {
        Ok(Some(signature)) => r == Ok::<Vec<u8>, AppleCodesignError>(signature),
        Ok(None) => fails_with(r, "KMS Sign response missing signature"@),
        Err(e) => fails_with(r, "Sign failed for key "@ + key_id + ": "@ + e@),
    }
}

impl AppleCodesignError {
    /// How the error reads.
    pub open spec fn text(self) -> Seq<char> {
        match self {
            AppleCodesignError::AwsKms(text) => text@,
        }
    }

    /// How the error reads.
    pub fn message(&self) -> (text: &str)
        ensures
            text@ == self.text(),
    {
        match self {
            AppleCodesignError::AwsKms(text) => text.as_str(),
        }
    }
}

impl PrivateKeyView {
    /// The request that asks KMS to sign `message` with this key and `algorithm`.
    pub open spec fn sign_request(
        self,
        message: Seq<u8>,
        algorithm: SigningAlgorithmSpec,
    ) -> SignRequestView {
        SignRequestView {
            key_id: self.key_id,
            message: x509_sha256(message),
            message_type: MessageType::Digest,
            signing_algorithm: algorithm,
        }
    }
}

impl AwsKmsPrivateKey {
    /// Construct a new instance from a KMS key identifier and an optional paired certificate.
    ///
    /// The reply to the KMS `GetPublicKey` request determines the key algorithm. When a
    /// certificate is given, its public key must match the KMS key.
    pub fn new(
        key_id: String,
        certificate: Option<CapturedX509Certificate>,
        reply: Result<PublicKeyReply, String>,
    ) -> (r: Result<Self, AppleCodesignError>)
        ensures
            is_constructed(key_id@, certificate, reply, r),
            r matches Ok(key) ==> key@.key_algorithm.kms_algorithm() is Some,
    {
        let (kms_spki, key_algorithm) = match read_public_key_reply(key_id.as_str(), reply) {
            Ok(read) => read,
            Err(e) => return Err(e),
        };

        // The raw public key data (SPKI subjectPublicKey contents).
        let public_key_data = match read_public_key_data(parse_spki(kms_spki.as_slice())) {
            Ok(data) => data,
            Err(e) => return Err(e),
        };

        if let Some(cert) = &certificate {
            let checked = check_certificate_key(
                key_id.as_str(),
                kms_spki.as_slice(),
                certificate_key_der(cert),
            );
            if let Err(e) = checked {
                return Err(e);
            }
        }

        Ok(Self { key_id, key_algorithm, public_key_data, certificate })
    }

    /// Resolve the KMS signing algorithm to use based on the key algorithm.
    pub fn signing_algorithm_spec(&self) -> (r: Result<SigningAlgorithmSpec, AppleCodesignError>)
        ensures
            match self@.key_algorithm.kms_algorithm() {
                Some(spec) => r == Ok::<SigningAlgorithmSpec, AppleCodesignError>(spec),
                None => fails_with(r, self@.key_algorithm.unsupported_text()),
            },
    {
        self.key_algorithm.signing_algorithm_spec()
    }

    /// The request that asks KMS to sign a pre-computed SHA-256 digest.
    pub fn kms_sign_digest(
        &self,
        digest: Vec<u8>,
        algorithm: SigningAlgorithmSpec,
    ) -> (request: SignRequest)
        ensures
            request@ == (SignRequestView {
                key_id: self@.key_id,
                message: digest@,
                message_type: MessageType::Digest,
                signing_algorithm: algorithm,
            }),
    {
        SignRequest {
            key_id: self.key_id.clone(),
            message: digest,
            message_type: MessageType::Digest,
            signing_algorithm: algorithm,
        }
    }

    /// The signature in the reply of KMS.
    pub fn read_sign_reply(&self, reply: SignReply) -> (r: Result<Vec<u8>, AppleCodesignError>)
        ensures
            is_reply_signature(self@.key_id, reply, r),
    {
        match reply {
            Ok(Some(signature)) => Ok(signature),
            Ok(None) => Err(
                AppleCodesignError::AwsKms("KMS Sign response missing signature".to_owned()),
            ),
            Err(e) => Err(
                AppleCodesignError::AwsKms(
                    join4("Sign failed for key ", self.key_id.as_str(), ": ", e.as_str()),
                ),
            ),
        }
    }

    /// The request that asks KMS to sign an arbitrary message: the message is hashed here and
    /// the digest is signed in KMS.
    ///
    /// For RSA keys, KMS performs the EMSA-PKCS1-v1_5 encoding (including the DigestInfo)
    /// itself. For ECDSA keys, it returns an ASN.1 DER encoded signature.
    pub fn sign_message(&self, message: &[u8]) -> (r: Result<SignRequest, AppleCodesignError>)
        requires
            message@.len() <= MAX_DIGEST_INPUT,
        ensures
            match self@.key_algorithm.kms_algorithm() {
                Some(spec) => r matches Ok(request) && request@ == self@.sign_request(
                    message@,
                    spec,
                ) && request.message@.len() == 32,
                None => fails_with(r, self@.key_algorithm.unsupported_text()),
            },
    {
        let algorithm = match self.signing_algorithm_spec() {
            Ok(algorithm) => algorithm,
            Err(e) => return Err(e),
        };
        let digest = x509_sha256_digest(message);

        Ok(self.kms_sign_digest(digest, algorithm))
    }

    /// The signature and its algorithm, from what signing a message came back with.
    pub fn sign(
        &self,
        signature: Result<Vec<u8>, AppleCodesignError>,
    ) -> (r: Result<(Vec<u8>, SignatureAlgorithm), X509CertificateError>)
        ensures
            match (self@.key_algorithm.x509_algorithm(), signature) {
                (None, _) => r matches Err(X509CertificateError::UnknownSignatureAlgorithm(t))
                    && t@ == self@.key_algorithm.unsupported_text(),
                (Some(_), Err(e)) => r matches Err(X509CertificateError::Other(t)) && t@
                    == "AWS KMS signing error: "@ + e.text(),
                (Some(algorithm), Ok(bytes)) => r == Ok::<
                    (Vec<u8>, SignatureAlgorithm),
                    X509CertificateError,
                >((bytes, algorithm)),
            },
    {
        let algorithm = match self.signature_algorithm() {
            Ok(algorithm) => algorithm,
            Err(e) => return Err(e),
        };

        match signature {
            Ok(bytes) => Ok((bytes, algorithm)),
            Err(e) => Err(
                X509CertificateError::Other(join2("AWS KMS signing error: ", e.message())),
            ),
        }
    }

    /// The X.509 certificate paired with the KMS key, if any.
    pub fn certificate(&self) -> (r: Option<&CapturedX509Certificate>)
        ensures
            match r {
                Some(certificate) => self@.certificate == Some(*certificate),
                None => self@.certificate is None,
            },
    {
        match &self.certificate {
            Some(certificate) => Some(certificate),
            None => None,
        }
    }

    /// The KMS key ID, key ARN, or alias this signing key uses.
    pub fn key_id(&self) -> (key_id: &str)
        ensures
            key_id@ == self@.key_id,
    {
        self.key_id.as_str()
    }

    /// The algorithm of the key.
    pub fn key_algorithm(&self) -> (r: Option<KeyAlgorithm>)
        ensures
            r == Some(self@.key_algorithm),
    {
        Some(self.key_algorithm)
    }

    /// The raw public key.
    pub fn public_key_data(&self) -> (data: &[u8])
        ensures
            data@ == self@.public_key_data,
    {
        self.public_key_data.as_slice()
    }

    /// The algorithm of the signatures that the key makes.
    pub fn signature_algorithm(&self) -> (r: Result<SignatureAlgorithm, X509CertificateError>)
        ensures
            match self@.key_algorithm.x509_algorithm() {
                Some(algorithm) => r == Ok::<SignatureAlgorithm, X509CertificateError>(algorithm),
                None => r matches Err(X509CertificateError::UnknownSignatureAlgorithm(t)) && t@
                    == self@.key_algorithm.unsupported_text(),
            },
    {
        self.key_algorithm.signature_algorithm()
    }

    /// The private key: KMS never exposes private key material.
    pub fn private_key_data(&self) -> (r: Option<Vec<u8>>)
        ensures
            r is None,
    {
        None
    }

    /// The primes of an RSA key: KMS never exposes private key material.
    pub fn rsa_primes(&self) -> (r: Result<Option<(Vec<u8>, Vec<u8>)>, X509CertificateError>)
        ensures
            r == Ok::<Option<(Vec<u8>, Vec<u8>)>, X509CertificateError>(None),
    {
        Ok(None)
    }

    /// Decryption of a remote signing session: always refused.
    pub fn decrypt(&self, _ciphertext: &[u8]) -> (r: Result<Vec<u8>, RemoteSignError>)
        ensures
            r matches Err(RemoteSignError::Crypto(text)) && text@
                == "decryption via AWS KMS signing keys is not supported"@,
    {
        Err(
            RemoteSignError::Crypto(
                "decryption via AWS KMS signing keys is not supported".to_owned(),
            ),
        )
    }

    /// End the use of the key, for which nothing is left to do.
    pub fn finish(&self) -> (r: Result<(), AppleCodesignError>)
        ensures
            r is Ok,
    {
        Ok(())
    }
}

/// A key that was constructed with a certificate is paired with the certificate's own public
/// key; a certificate for another key is refused.
pub proof fn law_certificate_matches_key(
    key_id: Seq<char>,
    certificate: CapturedX509Certificate,
    reply: PublicKeyReply,
    r: Result<AwsKmsPrivateKey, AppleCodesignError>,
)
    requires
        is_constructed(key_id, Some(certificate), Ok(reply), r),
    ensures
        r is Ok ==> reply.public_key is Some && certificate_spki(certificate) == Ok::<
            Seq<u8>,
            Seq<char>,
        >(reply.public_key->0@),
        r matches Ok(key) ==> key@.certificate == Some(certificate) && spki_public_key(
            reply.public_key->0@,
        ) == Ok::<Seq<u8>, Seq<char>>(key@.public_key_data),
        reply.public_key is Some && certificate_spki(certificate) != Ok::<Seq<u8>, Seq<char>>(
            reply.public_key->0@,
        ) ==> r is Err,
{
}

/// A certificate only ever adds a check: a key that can be constructed with one can be
/// constructed without, and is the same but for the certificate.
pub proof fn law_certificate_only_restricts(
    key_id: Seq<char>,
    certificate: CapturedX509Certificate,
    reply: Result<PublicKeyReply, String>,
    with: Result<AwsKmsPrivateKey, AppleCodesignError>,
    without: Result<AwsKmsPrivateKey, AppleCodesignError>,
)
    requires
        is_constructed(key_id, Some(certificate), reply, with),
        is_constructed(key_id, None, reply, without),
        with is Ok,
    ensures
        without is Ok,
        without->Ok_0@.key_id == with->Ok_0@.key_id,
        without->Ok_0@.key_algorithm == with->Ok_0@.key_algorithm,
        without->Ok_0@.public_key_data == with->Ok_0@.public_key_data,
        without->Ok_0@.certificate is None,
{
}

/// Every constructed key can sign, and the algorithm that KMS signs with is the one that its
/// signatures are labelled with.
pub proof fn law_constructed_key_can_sign(
    key_id: Seq<char>,
    certificate: Option<CapturedX509Certificate>,
    reply: Result<PublicKeyReply, String>,
    r: Result<AwsKmsPrivateKey, AppleCodesignError>,
)
    requires
        is_constructed(key_id, certificate, reply, r),
    ensures
        r matches Ok(key) ==> {
            let algorithm = key@.key_algorithm;
            &&& key@.key_id == key_id
            &&& algorithm.kms_algorithm() is Some
            &&& algorithm.kms_algorithm() == Some(SigningAlgorithmSpec::RsassaPkcs1V15Sha256)
                <==> algorithm.x509_algorithm() == Some(SignatureAlgorithm::RsaSha256)
            &&& algorithm.kms_algorithm() == Some(SigningAlgorithmSpec::EcdsaSha256)
                <==> algorithm.x509_algorithm() == Some(SignatureAlgorithm::EcdsaSha256)
        },
{
}

} // verus!
