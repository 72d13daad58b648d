//! Errors of API keys and API tokens.
use vstd::prelude::*;

verus! {

/// No API key file was found in the search locations.
#[derive(Clone, Copy, Debug)]
pub struct MissingApiKey;

impl MissingApiKey {
    /// How the error reads.
    pub fn message(&self) -> (text: String)
        ensures
            text@ == "no app store connect api key found"@,
    {
        "no app store connect api key found".to_owned()
    }
}

/// A file does not hold a PEM formatted private key.
#[derive(Clone, Copy, Debug, PartialEq, Eq, Structural)]
pub struct InvalidPemPrivateKey;

impl InvalidPemPrivateKey {
    /// How the error reads.
    pub fn message(&self) -> (text: String)
        ensures
            text@ == "invalid PEM formatted private key"@,
    {
        "invalid PEM formatted private key".to_owned()
    }
}

/// What can go wrong with API keys and API tokens.
#[derive(Debug)]
pub enum ConnectError {
    /// No API key file was found.
    MissingApiKey(MissingApiKey),
    /// A file does not hold a PEM formatted private key.
    InvalidPemPrivateKey(InvalidPemPrivateKey),
    /// The private key of a unified API key is not base64.
    InvalidUnifiedApiKey(base64::DecodeError),
    /// A private key was rejected, or signing with it failed.
    Jwt(jsonwebtoken::errors::Error),
    /// Serializing JSON failed.
    Json(serde_json::Error),
    /// The system clock stands before the UNIX epoch.
    ClockBeforeEpoch,
    /// A token would expire later than the latest time that can be written.
    ExpiryOutOfRange,
    /// Any other failure, with how it reads.
    Message(String),
}

impl ConnectError {
    /// How an error of this library reads, and the context that it puts before an outside
    /// error; `None` where the outside error speaks for itself.
    pub open spec fn own_text_spec(&self) -> Option<Seq<char>> {
        match self {
            ConnectError::MissingApiKey(_) => Some("no app store connect api key found"@),
            ConnectError::InvalidPemPrivateKey(_) => Some("invalid PEM formatted private key"@),
            ConnectError::InvalidUnifiedApiKey(_) => Some("invalid unified api key"@),
            ConnectError::Jwt(_) => None,
            ConnectError::Json(_) => None,
            ConnectError::ClockBeforeEpoch => Some("calculating UNIX time should never fail"@),
            ConnectError::ExpiryOutOfRange => Some("token expiry is out of range"@),
            ConnectError::Message(text) => Some(text@),
        }
    }

    /// How an error of this library reads, and the context that it puts before an outside
    /// error; `None` where the outside error speaks for itself.
    pub fn own_text(&self) -> (r: Option<String>)
        ensures
            r is Some <==> self.own_text_spec() is Some,
            r matches Some(text) ==> Some(text@) == self.own_text_spec(),
    {
        match self {
            ConnectError::MissingApiKey(e) => Some(e.message()),
            ConnectError::InvalidPemPrivateKey(e) => Some(e.message()),
            ConnectError::InvalidUnifiedApiKey(_) => Some("invalid unified api key".to_owned()),
            ConnectError::Jwt(_) => None,
            ConnectError::Json(_) => None,
            ConnectError::ClockBeforeEpoch => Some("calculating UNIX time should never fail".to_owned()),
            ConnectError::ExpiryOutOfRange => Some("token expiry is out of range".to_owned()),
            ConnectError::Message(text) => Some(text.clone()),
        }
    }
}

} // verus!
