//! X.509 certificates and subject public keys.
use vstd::prelude::*;
use x509_certificate::CapturedX509Certificate;

verus! {

/// An X.509 certificate together with the data that it was read from.
#[verifier::external_type_specification]
#[verifier::external_body]
pub struct ExCertificate(CapturedX509Certificate);

/// An outcome by the bytes, or by the text of the error.
pub open spec fn bytes_or_text(r: Result<Vec<u8>, String>) -> Result<Seq<u8>, Seq<char>> {
    match r {
        Ok(bytes) => Ok(bytes@),
        Err(text) => Err(text@),
    }
}

/// What `spki::SubjectPublicKeyInfoOwned::from_der` reads from `der`: the raw bytes of the
/// subject public key, or how its error reads.
pub uninterp spec fn spki_public_key(der: Seq<u8>) -> Result<Seq<u8>, Seq<char>>;

/// What `CapturedX509Certificate::constructed_data` gives: the bytes that `certificate` was
/// read from.
pub uninterp spec fn certificate_bytes(certificate: CapturedX509Certificate) -> Seq<u8>;

/// What `CapturedX509Certificate::from_der` reads from `data`: the certificate, or how its
/// error reads.
pub uninterp spec fn der_certificate(data: Seq<u8>) -> Result<CapturedX509Certificate, Seq<char>>;

/// `certificate` was read as DER, and not as BER.
pub uninterp spec fn is_read_as_der(certificate: CapturedX509Certificate) -> bool;

/// The algorithm of the subject public key in `certificate` has parameters.
pub uninterp spec fn has_key_parameters(certificate: CapturedX509Certificate) -> bool;

/// What `EncodePublicKey::to_public_key_der` gives for `certificate`: the DER encoded
/// subject public key info, or how its error reads.
pub uninterp spec fn public_key_der(certificate: CapturedX509Certificate) -> Result<
    Seq<u8>,
    Seq<char>,
>;

/// The DER encoded subject public key info of `certificate`, or how the error reads. Key
/// parameters can be encoded as DER only where they were read as DER: for these the
/// certificate's bytes are read as DER.
pub open spec fn certificate_spki(certificate: CapturedX509Certificate) -> Result<
    Seq<u8>,
    Seq<char>,
> {
    if has_key_parameters(certificate) {
        match der_certificate(certificate_bytes(certificate)) {
            Ok(read) => public_key_der(read),
            Err(text) => Err(text),
        }
    } else {
        public_key_der(certificate)
    }
}

/// An outcome by the certificate, or by the text of the error.
pub open spec fn certificate_or_text(r: Result<CapturedX509Certificate, String>) -> Result<
    CapturedX509Certificate,
    Seq<char>,
> {
    match r {
        Ok(certificate) => Ok(certificate),
        Err(text) => Err(text@),
    }
}

/// Calls `spki::SubjectPublicKeyInfoOwned::from_der`, and takes the raw bytes of the subject
/// public key.
/// Trusted: the outcome depends on `der` alone.
#[verifier::external_body]
pub(crate) fn parse_spki(der: &[u8]) -> (r: Result<Vec<u8>, String>)
    ensures
        bytes_or_text(r) == spki_public_key(der@),
{
    match <spki::SubjectPublicKeyInfoOwned as der::Decode>::from_der(der) {
        Ok(info) => Ok(info.subject_public_key.raw_bytes().to_vec()),
        Err(e) => Err(e.to_string()),
    }
}

/// `x509_certificate::CapturedX509Certificate::constructed_data`.
/// Trusted: the bytes depend on the certificate alone.
pub assume_specification[ CapturedX509Certificate::constructed_data ](
    certificate: &CapturedX509Certificate,
) -> (data: &[u8])
    ensures
        data@ == certificate_bytes(*certificate),
;

/// Calls `x509_certificate::CapturedX509Certificate::from_der`.
/// Trusted: the outcome depends on `data` alone, and a certificate is one that was read as
/// DER.
#[verifier::external_body]
fn read_certificate(data: &[u8]) -> (r: Result<CapturedX509Certificate, String>)
    ensures
        certificate_or_text(r) == der_certificate(data@),
        r matches Ok(certificate) ==> is_read_as_der(certificate),
{
    match CapturedX509Certificate::from_der(data) {
        Ok(certificate) => Ok(certificate),
        Err(e) => Err(e.to_string()),
    }
}

/// Calls `AsRef::as_ref` for the `x509_certificate::rfc5280::Certificate` of the certificate,
/// and looks whether the algorithm of its subject public key has parameters.
/// Trusted: the result is what [`has_key_parameters`] stands for.
#[verifier::external_body]
fn key_parameters_present(certificate: &CapturedX509Certificate) -> (present: bool)
    ensures
        present == has_key_parameters(*certificate),
{
    let certificate: &x509_certificate::rfc5280::Certificate = certificate.as_ref();
    certificate.tbs_certificate.subject_public_key_info.algorithm.parameters.is_some()
}

/// Calls `spki::EncodePublicKey::to_public_key_der` on the certificate.
/// Trusted: the outcome depends on the certificate alone. The call panics on parameters of
/// the key's algorithm that were read as BER.
#[verifier::external_body]
fn encode_certificate_key(certificate: &CapturedX509Certificate) -> (r: Result<Vec<u8>, String>)
    requires
        !has_key_parameters(*certificate) || is_read_as_der(*certificate),
    ensures
        bytes_or_text(r) == public_key_der(*certificate),
{
    match spki::EncodePublicKey::to_public_key_der(&**certificate) {
        Ok(document) => Ok(document.as_bytes().to_vec()),
        Err(e) => Err(e.to_string()),
    }
}

/// The DER encoded subject public key info of the certificate, or how the error reads.
pub fn certificate_key_der(certificate: &CapturedX509Certificate) -> (r: Result<Vec<u8>, String>)
    ensures
        bytes_or_text(r) == certificate_spki(*certificate),
{
    if key_parameters_present(certificate) {
        match read_certificate(certificate.constructed_data()) {
            Ok(read) => encode_certificate_key(&read),
            Err(text) => Err(text),
        }
    } else {
        encode_certificate_key(certificate)
    }
}

} // verus!
