//! Requests to AWS KMS and its replies, as plain values.
use vstd::prelude::*;

verus! {

/// What a key in KMS is.
#[derive(Clone, Debug)]
pub enum KeySpec {
    /// RSA with 2048 bits.
    Rsa2048,
    /// RSA with 3072 bits.
    Rsa3072,
    /// RSA with 4096 bits.
    Rsa4096,
    /// ECC on the NIST curve P-256.
    EccNistP256,
    /// ECC on the NIST curve P-384.
    EccNistP384,
    /// Anything else, with how it reads in a message.
    Other(String),
}

/// How KMS signs.
#[derive(Clone, Copy, Debug, PartialEq, Eq, Structural)]
pub enum SigningAlgorithmSpec {
    /// RSASSA-PKCS1-v1_5 with SHA-256.
    RsassaPkcs1V15Sha256,
    /// ECDSA with SHA-256.
    EcdsaSha256,
}

/// What the message of a `Sign` request is.
#[derive(Clone, Copy, Debug, PartialEq, Eq, Structural)]
pub enum MessageType {
    /// The message itself, which KMS digests.
    Raw,
    /// The digest of the message.
    Digest,
}

/// A `Sign` request.
#[derive(Debug)]
pub struct SignRequest {
    /// Key ID, key ARN, or alias of the key.
    pub key_id: String,
    /// The message to sign, or its digest.
    pub message: Vec<u8>,
    /// What the message is.
    pub message_type: MessageType,
    /// How to sign.
    pub signing_algorithm: SigningAlgorithmSpec,
}

/// What a [`SignRequest`] holds.
pub struct SignRequestView {
    /// Key ID, key ARN, or alias of the key.
    pub key_id: Seq<char>,
    /// The message to sign, or its digest.
    pub message: Seq<u8>,
    /// What the message is.
    pub message_type: MessageType,
    /// How to sign.
    pub signing_algorithm: SigningAlgorithmSpec,
}

impl View for SignRequest {
    type V = SignRequestView;

    open spec fn view(&self) -> SignRequestView {
        SignRequestView {
            key_id: self.key_id@,
            message: self.message@,
            message_type: self.message_type,
            signing_algorithm: self.signing_algorithm,
        }
    }
}

/// The reply to a `Sign` request: the signature, if the reply has one, or how the error reads.
pub type SignReply = Result<Option<Vec<u8>>, String>;

/// What a reply to a `GetPublicKey` request holds.
#[derive(Debug)]
pub struct PublicKeyReply {
    /// The DER encoded subject public key info.
    pub public_key: Option<Vec<u8>>,
    /// What the key is.
    pub key_spec: Option<KeySpec>,
}

} // verus!
