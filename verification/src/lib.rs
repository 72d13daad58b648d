//! App Store Connect API tokens and code signing keys for Apple platforms,
//! with private keys held in memory or in AWS KMS.
use vstd::prelude::*;

pub mod api_key;
pub mod api_key_search;
pub mod api_token;
pub mod base64_text;
pub mod clock;
pub mod codesign_kms;
pub mod digest;
pub mod error;
pub mod es256_kms;
pub mod json;
pub mod jwt;
pub mod kms;
pub mod laws;
pub mod p256_signature;
pub mod pem_block;
mod text;
pub mod x509;

verus! {

/// File mode of a written API key file: readable and writable by its owner alone.
pub const PRIVATE_FILE_MODE: u32 = 0o600;

} // verus!
