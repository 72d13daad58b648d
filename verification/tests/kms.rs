use std::sync::Arc;

use apple_kms::api_token::{ConnectTokenEncoder, Es256Signer};
use apple_kms::codesign_kms::{
    check_certificate_key, read_public_key_data, read_public_key_reply, resolve_key_algorithm,
    AppleCodesignError, AwsKmsPrivateKey, EcdsaCurve, KeyAlgorithm, RemoteSignError,
    SignatureAlgorithm, X509CertificateError,
};
use apple_kms::error::ConnectError;
use apple_kms::es256_kms::AwsKmsEs256Signer;
use apple_kms::kms::{KeySpec, MessageType, PublicKeyReply, SigningAlgorithmSpec};
use apple_kms::x509::certificate_key_der;
use p256::ecdsa::signature::hazmat::{PrehashSigner, PrehashVerifier};
use p256::ecdsa::signature::Signer;
use p256::ecdsa::{Signature, SigningKey};
use p256::pkcs8::EncodePublicKey;
use x509_certificate::{CapturedX509Certificate, X509CertificateBuilder};

const ABC_SHA256: [u8; 32] = [
    0xba, 0x78, 0x16, 0xbf, 0x8f, 0x01, 0xcf, 0xea, 0x41, 0x41, 0x40, 0xde, 0x5d, 0xae, 0x22, 0x23,
    0xb0, 0x03, 0x61, 0xa3, 0x96, 0x17, 0x7a, 0x9c, 0xb4, 0x10, 0xff, 0x61, 0xf2, 0x00, 0x15, 0xad,
];

fn certificate() -> (CapturedX509Certificate, Vec<u8>) {
    let (certificate, _) = X509CertificateBuilder::default()
        .create_with_random_keypair(x509_certificate::KeyAlgorithm::Ecdsa(
            x509_certificate::EcdsaCurve::Secp256r1,
        ))
        .unwrap();
    let spki = spki::EncodePublicKey::to_public_key_der(&*certificate).unwrap();
    (certificate, spki.as_bytes().to_vec())
}

fn reply(spki: &[u8], spec: KeySpec) -> Result<PublicKeyReply, String> {
    Ok(PublicKeyReply { public_key: Some(spki.to_vec()), key_spec: Some(spec) })
}

fn kms_message<T>(r: Result<T, AppleCodesignError>) -> String {
    match r {
        Ok(_) => panic!("no error"),
        Err(e) => e.message().to_string(),
    }
}

fn private_key() -> AwsKmsPrivateKey {
    let (_, spki) = certificate();
    AwsKmsPrivateKey::new("alias/k".into(), None, reply(&spki, KeySpec::EccNistP256)).unwrap()
}

#[test]
fn es256_request_holds_the_digest() {
    let signer = AwsKmsEs256Signer::new("alias/k".into());
    assert_eq!(signer.key_id(), "alias/k");
    let request = signer.sign_request(b"abc");
    assert_eq!(request.key_id, "alias/k");
    assert_eq!(request.message, ABC_SHA256);
    assert_eq!(request.message_type, MessageType::Digest);
    assert_eq!(request.signing_algorithm, SigningAlgorithmSpec::EcdsaSha256);
}

#[test]
fn es256_reply_is_converted_to_raw() {
    let signer = AwsKmsEs256Signer::new("k".into());
    let key = SigningKey::random(&mut rand::thread_rng());
    for i in 0..200u32 {
        let signature: Signature = key.sign(&i.to_be_bytes());
        let der = signature.to_der().as_bytes().to_vec();
        let raw = signer.sign_es256(Ok(Some(der))).unwrap();
        assert_eq!(raw, signature.to_bytes().to_vec());
        let digest = signer.sign_request(&i.to_be_bytes()).message;
        let parsed = Signature::from_slice(&raw).unwrap();
        assert!(key.verifying_key().verify_prehash(&digest, &parsed).is_ok());
    }
}

/// Signs as KMS does: the digest, with a signature in DER form.
struct KmsStandIn {
    signer: AwsKmsEs256Signer,
    key: SigningKey,
}

impl Es256Signer for KmsStandIn {
    fn sign_es256(&self, message: &[u8]) -> Result<Vec<u8>, ConnectError> {
        let request = self.signer.sign_request(message);
        let signature: Signature = self.key.sign_prehash(&request.message).unwrap();
        self.signer.sign_es256(Ok(Some(signature.to_der().as_bytes().to_vec())))
    }
}

#[test]
fn token_carries_kms_signature() {
    let key = SigningKey::random(&mut rand::thread_rng());
    let public_key = key.verifying_key().to_sec1_bytes().to_vec();
    let signer = AwsKmsEs256Signer::new("alias/k".into());
    let encoder = ConnectTokenEncoder::from_es256_signer(
        "K".into(),
        "I".into(),
        Arc::new(KmsStandIn { signer, key }),
    );
    let token = encoder.new_token(60).unwrap();

    let decoding_key = jsonwebtoken::DecodingKey::from_ec_der(&public_key);
    let mut validation = jsonwebtoken::Validation::new(jsonwebtoken::Algorithm::ES256);
    validation.set_audience(&["appstoreconnect-v1"]);
    assert!(jsonwebtoken::decode::<serde_json::Value>(&token, &decoding_key, &validation).is_ok());
}

#[test]
fn es256_reply_of_small_numbers() {
    let signer = AwsKmsEs256Signer::new("k".into());
    let mut raw = vec![0; 64];
    raw[31] = 1;
    raw[63] = 0x80;
    let der = vec![0x30, 7, 2, 1, 1, 2, 2, 0, 0x80];
    assert_eq!(signer.sign_es256(Ok(Some(der))).unwrap(), raw);
}

#[test]
fn es256_malformed_signature_is_an_error() {
    let signer = AwsKmsEs256Signer::new("k".into());
    let mut too_large = vec![0x30, 0x26, 2, 0x21, 0];
    too_large.extend([0xff; 32]);
    too_large.extend([2, 1, 1]);
    let malformed = vec![
        vec![],
        vec![0x30, 6, 2, 1, 1, 2, 1],
        vec![0x30, 6, 2, 1, 1, 2, 1, 1, 0],
        vec![0x30, 6, 2, 1, 0, 2, 1, 1],
        vec![0x30, 6, 2, 1, 0x80, 2, 1, 1],
        vec![0x30, 7, 2, 2, 0, 1, 2, 1, 1],
        vec![0x30, 0x81, 6, 2, 1, 1, 2, 1, 1],
        vec![0x31, 6, 2, 1, 1, 2, 1, 1],
        too_large,
    ];
    for der in malformed {
        assert!(matches!(
            signer.sign_es256(Ok(Some(der))),
            Err(ConnectError::Message(m))
                if m == "failed to parse KMS ECDSA signature: signature error"
        ));
    }
    assert!(signer.sign_es256(Ok(Some(vec![0x30, 6, 2, 1, 1, 2, 1, 1]))).is_ok());
}

#[test]
fn es256_failed_request_is_an_error() {
    let signer = AwsKmsEs256Signer::new("alias/k".into());
    assert!(matches!(
        signer.sign_es256(Ok(None)),
        Err(ConnectError::Message(m)) if m == "AWS KMS Sign response missing signature"
    ));
    assert!(matches!(
        signer.sign_es256(Err("denied".into())),
        Err(ConnectError::Message(m)) if m == "AWS KMS Sign failed for key alias/k: denied"
    ));
}

#[test]
fn key_algorithm_follows_key_spec() {
    for spec in [KeySpec::Rsa2048, KeySpec::Rsa3072, KeySpec::Rsa4096] {
        assert_eq!(resolve_key_algorithm(&Some(spec)).unwrap(), KeyAlgorithm::Rsa);
    }
    assert_eq!(
        resolve_key_algorithm(&Some(KeySpec::EccNistP256)).unwrap(),
        KeyAlgorithm::Ecdsa(EcdsaCurve::Secp256r1)
    );
    assert_eq!(
        resolve_key_algorithm(&Some(KeySpec::EccNistP384)).unwrap(),
        KeyAlgorithm::Ecdsa(EcdsaCurve::Secp384r1)
    );
    assert_eq!(
        kms_message(resolve_key_algorithm(&Some(KeySpec::Other("Sm2".into())))),
        "unsupported KMS key spec for signing: Some(Sm2)"
    );
    assert_eq!(
        kms_message(resolve_key_algorithm(&None)),
        "unsupported KMS key spec for signing: None"
    );
}

#[test]
fn matching_certificate_is_paired() {
    let (certificate, spki) = certificate();
    let key = AwsKmsPrivateKey::new(
        "alias/k".into(),
        Some(certificate.clone()),
        reply(&spki, KeySpec::EccNistP256),
    )
    .unwrap();
    assert_eq!(key.key_id(), "alias/k");
    assert_eq!(key.key_algorithm(), Some(KeyAlgorithm::Ecdsa(EcdsaCurve::Secp256r1)));
    assert_eq!(key.public_key_data(), &certificate.public_key_data()[..]);
    assert_eq!(
        key.certificate().unwrap().constructed_data(),
        certificate.constructed_data()
    );
}

#[test]
fn certificate_read_as_ber_is_paired() {
    let (certificate, spki) = certificate();
    let ber = CapturedX509Certificate::from_ber(certificate.constructed_data()).unwrap();
    let key = AwsKmsPrivateKey::new(
        "alias/k".into(),
        Some(ber.clone()),
        reply(&spki, KeySpec::EccNistP256),
    )
    .unwrap();
    assert_eq!(key.public_key_data(), &certificate.public_key_data()[..]);
    let other = SigningKey::random(&mut rand::thread_rng());
    let spki = other.verifying_key().to_public_key_der().unwrap();
    assert!(kms_message(AwsKmsPrivateKey::new(
        "alias/k".into(),
        Some(ber),
        reply(spki.as_bytes(), KeySpec::EccNistP256)
    ))
    .starts_with("certificate public key does not match"));
}

#[test]
fn certificate_that_is_not_der_is_refused() {
    let (certificate, spki) = certificate();
    let der = certificate.constructed_data();
    let header = if der[1] < 0x80 { 2 } else { 2 + (der[1] & 0x7f) as usize };
    let mut indefinite = vec![0x30, 0x80];
    indefinite.extend(&der[header..]);
    indefinite.extend([0, 0]);
    let ber = CapturedX509Certificate::from_ber(indefinite).unwrap();
    assert!(kms_message(AwsKmsPrivateKey::new(
        "alias/k".into(),
        Some(ber),
        reply(&spki, KeySpec::EccNistP256)
    ))
    .starts_with("failed to encode certificate public key: "));
}

/// The contents of the DER value that `data` starts with, and what follows the value.
fn der_contents(data: &[u8]) -> (&[u8], &[u8]) {
    let (header, len) = if data[1] < 0x80 {
        (2, data[1] as usize)
    } else {
        let header = 2 + (data[1] & 0x7f) as usize;
        (header, data[2..header].iter().fold(0, |len, b| len * 256 + *b as usize))
    };
    (&data[header..header + len], &data[header + len..])
}

/// A SEQUENCE in DER.
fn der_sequence(contents: &[u8]) -> Vec<u8> {
    let len = contents.len();
    let mut data = match len {
        0..=0x7f => vec![0x30, len as u8],
        0x80..=0xff => vec![0x30, 0x81, len as u8],
        _ => vec![0x30, 0x82, (len / 256) as u8, (len % 256) as u8],
    };
    data.extend(contents);
    data
}

#[test]
fn ber_certificate_without_key_parameters_is_paired() {
    let (certificate, _) = X509CertificateBuilder::default()
        .create_with_random_keypair(x509_certificate::KeyAlgorithm::Ed25519)
        .unwrap();
    let spki = spki::EncodePublicKey::to_public_key_der(&*certificate).unwrap();
    let spki = spki.as_bytes();
    assert_eq!(spki[..4], [0x30, 0x2c, 0x30, 0x07]);
    assert_eq!(spki[9..14], [0x05, 0x00, 0x03, 0x21, 0x00]);
    let mut bare = vec![0x30, 0x2a, 0x30, 0x05];
    bare.extend(&spki[4..9]);
    bare.extend(&spki[11..]);

    let (body, _) = der_contents(certificate.constructed_data());
    let (tbs, rest) = der_contents(body);
    let at = tbs.windows(spki.len()).position(|window| window == spki).unwrap();
    let tbs = [&tbs[..at], &bare, &tbs[at + spki.len()..]].concat();
    let body = [&der_sequence(&tbs), rest].concat();
    let indefinite = [&[0x30, 0x80], &body[..], &[0, 0]].concat();

    let ber = CapturedX509Certificate::from_ber(indefinite).unwrap();
    let direct = spki::EncodePublicKey::to_public_key_der(&*ber).unwrap();
    assert_eq!(direct.as_bytes(), spki);
    assert_eq!(certificate_key_der(&ber).unwrap(), spki);
    assert!(AwsKmsPrivateKey::new(
        "k".into(),
        Some(ber.clone()),
        reply(spki, KeySpec::Rsa2048)
    )
    .is_ok());
    assert!(kms_message(AwsKmsPrivateKey::new(
        "k".into(),
        Some(ber),
        reply(&bare, KeySpec::Rsa2048)
    ))
    .starts_with("certificate public key does not match"));

    let der = CapturedX509Certificate::from_der(der_sequence(&body)).unwrap();
    assert_eq!(certificate_key_der(&der).unwrap(), spki);
}

#[test]
fn public_key_data_is_the_sec1_point() {
    let key = SigningKey::random(&mut rand::thread_rng());
    let spki = key.verifying_key().to_public_key_der().unwrap();
    let kms = AwsKmsPrivateKey::new("k".into(), None, reply(spki.as_bytes(), KeySpec::EccNistP256))
        .unwrap();
    assert_eq!(
        kms.public_key_data(),
        key.verifying_key().to_encoded_point(false).as_bytes()
    );
    assert!(kms.certificate().is_none());
}

#[test]
fn foreign_certificate_is_refused() {
    let (certificate, _) = certificate();
    let other = private_key();
    let key = SigningKey::random(&mut rand::thread_rng());
    let spki = key.verifying_key().to_public_key_der().unwrap();
    assert_eq!(
        kms_message(AwsKmsPrivateKey::new(
            "alias/k".into(),
            Some(certificate),
            reply(spki.as_bytes(), KeySpec::EccNistP256)
        )),
        "certificate public key does not match public key of KMS key alias/k; refusing to sign \
         (was the certificate issued for a different key?)"
    );
    assert!(other.certificate().is_none());
}

#[test]
fn certificate_check_compares_all_bytes() {
    assert!(check_certificate_key("k", &[1, 2, 3], Ok(vec![1, 2, 3])).is_ok());
    assert!(check_certificate_key("k", &[1, 2, 3], Ok(vec![1, 2, 4])).is_err());
    assert!(check_certificate_key("k", &[1, 2, 3], Ok(vec![1, 2])).is_err());
    assert_eq!(
        kms_message(check_certificate_key("k", &[], Err("bad".into()))),
        "failed to encode certificate public key: bad"
    );
}

#[test]
fn public_key_reply_errors() {
    let (_, spki) = certificate();
    assert_eq!(
        kms_message(AwsKmsPrivateKey::new("k".into(), None, Err("denied".into()))),
        "GetPublicKey failed for key k: denied"
    );
    let missing = PublicKeyReply { public_key: None, key_spec: None };
    assert_eq!(
        kms_message(AwsKmsPrivateKey::new("k".into(), None, Ok(missing))),
        "KMS GetPublicKey response missing public key"
    );
    assert_eq!(
        kms_message(AwsKmsPrivateKey::new("k".into(), None, reply(&spki, KeySpec::Other("Hmac256".into())))),
        "unsupported KMS key spec for signing: Some(Hmac256)"
    );
    let malformed = kms_message(AwsKmsPrivateKey::new("k".into(), None, reply(b"x", KeySpec::Rsa2048)));
    assert!(malformed.starts_with("failed to parse KMS public key SPKI: "));
    assert_eq!(
        kms_message(read_public_key_data(Err("bad".into()))),
        "failed to parse KMS public key SPKI: bad"
    );
    assert_eq!(read_public_key_data(Ok(vec![1])).unwrap(), vec![1]);
    let read = read_public_key_reply("k", reply(&[5], KeySpec::Rsa4096)).unwrap();
    assert_eq!(read, (vec![5], KeyAlgorithm::Rsa));
}

#[test]
fn codesign_request_holds_the_digest() {
    let key = private_key();
    let request = key.sign_message(b"abc").unwrap();
    assert_eq!(request.key_id, "alias/k");
    assert_eq!(request.message, ABC_SHA256);
    assert_eq!(request.message_type, MessageType::Digest);
    assert_eq!(request.signing_algorithm, SigningAlgorithmSpec::EcdsaSha256);

    let (_, spki) = certificate();
    let rsa = AwsKmsPrivateKey::new("r".into(), None, reply(&spki, KeySpec::Rsa2048)).unwrap();
    assert_eq!(
        rsa.sign_message(b"").unwrap().signing_algorithm,
        SigningAlgorithmSpec::RsassaPkcs1V15Sha256
    );
    assert_eq!(rsa.signature_algorithm().unwrap(), SignatureAlgorithm::RsaSha256);
}

#[test]
fn codesign_reply_is_read() {
    let key = private_key();
    assert_eq!(key.read_sign_reply(Ok(Some(vec![1, 2]))).unwrap(), vec![1, 2]);
    assert_eq!(
        kms_message(key.read_sign_reply(Ok(None))),
        "KMS Sign response missing signature"
    );
    assert_eq!(
        kms_message(key.read_sign_reply(Err("denied".into()))),
        "Sign failed for key alias/k: denied"
    );
    assert_eq!(
        key.sign(Ok(vec![9])).unwrap(),
        (vec![9], SignatureAlgorithm::EcdsaSha256)
    );
    assert!(matches!(
        key.sign(Err(AppleCodesignError::AwsKms("x".into()))),
        Err(X509CertificateError::Other(m)) if m == "AWS KMS signing error: x"
    ));
}

#[test]
fn signing_algorithms_agree() {
    let ecdsa = KeyAlgorithm::Ecdsa(EcdsaCurve::Secp384r1);
    assert_eq!(ecdsa.signing_algorithm_spec().unwrap(), SigningAlgorithmSpec::EcdsaSha256);
    assert_eq!(ecdsa.signature_algorithm().unwrap(), SignatureAlgorithm::EcdsaSha256);
    assert_eq!(
        kms_message(KeyAlgorithm::Ed25519.signing_algorithm_spec()),
        "unsupported key algorithm for AWS KMS signing: Ed25519"
    );
    assert!(matches!(
        KeyAlgorithm::Ed25519.signature_algorithm(),
        Err(X509CertificateError::UnknownSignatureAlgorithm(m))
            if m == "unsupported key algorithm for AWS KMS signing: Ed25519"
    ));
}

#[test]
fn key_texts_are_their_debug_form() {
    for algorithm in [
        KeyAlgorithm::Rsa,
        KeyAlgorithm::Ecdsa(EcdsaCurve::Secp256r1),
        KeyAlgorithm::Ecdsa(EcdsaCurve::Secp384r1),
        KeyAlgorithm::Ed25519,
    ] {
        assert_eq!(algorithm.to_text(), format!("{algorithm:?}"));
    }
}

#[test]
fn private_material_is_never_exposed() {
    let key = private_key();
    assert!(key.private_key_data().is_none());
    assert!(matches!(key.rsa_primes(), Ok(None)));
    assert!(matches!(
        key.decrypt(b"secret"),
        Err(RemoteSignError::Crypto(m)) if m == "decryption via AWS KMS signing keys is not supported"
    ));
    assert!(key.finish().is_ok());
    assert_eq!(key.kms_sign_digest(vec![3], SigningAlgorithmSpec::EcdsaSha256).message, vec![3]);
}
