//! Unified API keys: all metadata of an App Store Connect API key in one value.
use std::sync::Arc;

use vstd::prelude::*;

use crate::api_token::{
    is_pem_encoder, ConnectTokenEncoder, EncoderView, Es256Signer, ExternalSigner,
    TokenSigningKey,
};
use crate::base64_text::{
    base64_standard, decode_standard, encode_standard, law_base64_determines_bytes,
    standard_decode_error,
};
use crate::error::{ConnectError, InvalidPemPrivateKey};
use crate::json::{
    has_member, insert_member, json_pretty, law_json_determines_members, new_object,
    object_members, object_to_string_pretty, JsonScalar, Members, ScalarView,
};
use crate::jwt::{ec_der_key, is_ec_key_of};
use crate::pem_block::{parse_pem, pem_block, PemBlock};
use crate::text::join3;

verus! {

/// All metadata of an App Store Connect API key.
///
/// This is a convenience type to aid in the generic representation of all the components
/// of an App Store Connect API key, which can be saved as a single file.
#[derive(Clone, Debug)]
pub struct UnifiedApiKey {
    /// Who issued the key. Likely a UUID.
    issuer_id: String,
    /// Key identifier. An alphanumeric text like `DEADBEEF42`.
    key_id: String,
    /// Base64 encoded DER of ECDSA private key material.
    ///
    /// Mutually exclusive with `aws_kms_key`.
    private_key: Option<String>,
    /// AWS KMS key ID, key ARN, or alias ARN holding the private key.
    ///
    /// When set, signing operations are performed remotely via AWS KMS and the key contains
    /// no secret material. Mutually exclusive with `private_key`.
    aws_kms_key: Option<String>,
    /// AWS region of the KMS key (optional; overrides environment and profile).
    aws_kms_region: Option<String>,
}

/// What a [`UnifiedApiKey`] holds.
pub struct ApiKeyView {
    /// Who issued the key.
    pub issuer_id: Seq<char>,
    /// Key identifier.
    pub key_id: Seq<char>,
    /// Base64 encoded DER of ECDSA private key material.
    pub private_key: Option<Seq<char>>,
    /// AWS KMS key that holds the private key.
    pub aws_kms_key: Option<Seq<char>>,
    /// AWS region of the KMS key.
    pub aws_kms_region: Option<Seq<char>>,
}

/// The characters of an optional text.
pub open spec fn text_view(text: Option<String>) -> Option<Seq<char>> {
    match text {
        Some(t) => Some(t@),
        None => None,
    }
}

impl View for UnifiedApiKey {
    type V = ApiKeyView;

    closed spec fn view(&self) -> ApiKeyView {
        ApiKeyView {
            issuer_id: self.issuer_id@,
            key_id: self.key_id@,
            private_key: text_view(self.private_key),
            aws_kms_key: text_view(self.aws_kms_key),
            aws_kms_region: text_view(self.aws_kms_region),
        }
    }
}

/// The member `name` where there is a value, and no member where there is none.
pub open spec fn optional_member(name: Seq<char>, value: Option<Seq<char>>) -> Members {
    match value {
        Some(text) => seq![(name, ScalarView::Text(text))],
        None => Seq::empty(),
    }
}

/// A key in AWS KMS that is to sign tokens, with the metadata of the tokens.
pub struct KmsTokenKey {
    /// Key identifier of the tokens.
    pub key_id: String,
    /// Issuer of the tokens.
    pub issuer_id: String,
    /// AWS KMS key ID, key ARN, or alias ARN.
    pub kms_key: String,
    /// AWS region of the KMS key, where it is not that of environment and profile.
    pub region: Option<String>,
}

/// What a unified API key leads to.
pub enum KeyResolution {
    /// An encoder with the private key in memory.
    Ready(ConnectTokenEncoder),
    /// A key in AWS KMS, which is yet to be connected to.
    AwsKms(KmsTokenKey),
}

impl ApiKeyView {
    /// The members of the JSON object for the key: nothing for what is not there.
    pub open spec fn members(self) -> Members {
        seq![
            ("issuer_id"@, ScalarView::Text(self.issuer_id)),
            ("key_id"@, ScalarView::Text(self.key_id)),
        ] + optional_member("private_key"@, self.private_key) + optional_member(
            "aws_kms_key"@,
            self.aws_kms_key,
        ) + optional_member("aws_kms_region"@, self.aws_kms_region)
    }

    /// The encoder for the private key `der` with the metadata of this key.
    pub open spec fn encoder(self, der: Seq<u8>) -> EncoderView {
        EncoderView {
            key_id: self.key_id,
            issuer_id: self.issuer_id,
            signing_key: TokenSigningKey::InMemory(ec_der_key(der)),
        }
    }

    /// `r` is what the key resolves to, where AWS KMS can be used if `kms_enabled`: the
    /// private key or the KMS key, and an error where there are both or neither.
    pub open spec fn resolves_to(
        self,
        kms_enabled: bool,
        r: Result<KeyResolution, ConnectError>,
    ) -> bool {
        match (self.private_key, self.aws_kms_key) {
            (Some(_), Some(_)) => r matches Err(ConnectError::Message(text)) && text@
                == "unified api key defines both `private_key` and `aws_kms_key`"@,
            (Some(text), None) => {
                &&& forall|der: Seq<u8>|
                    text == #[trigger] base64_standard(der) ==> (r matches Ok(
                        KeyResolution::Ready(encoder),
                    ) && encoder@ == self.encoder(der) && is_ec_key_of(ec_der_key(der), der))
                &&& (forall|der: Seq<u8>| text != #[trigger] base64_standard(der)) ==> r == Err::<
                    KeyResolution,
                    ConnectError,
                >(ConnectError::InvalidUnifiedApiKey(standard_decode_error(text)))
            },
            (None, Some(kms_key)) => if kms_enabled {
                r matches Ok(KeyResolution::AwsKms(key)) && key.key_id@ == self.key_id
                    && key.issuer_id@ == self.issuer_id && key.kms_key@ == kms_key && text_view(
                    key.region,
                ) == self.aws_kms_region
            } else {
                r matches Err(ConnectError::Message(text)) && text@
                    == "unified api key references AWS KMS key "@ + kms_key
                    + " but AWS KMS support is not compiled in (enable the `aws-kms` Cargo feature)"@
            },
            (None, None) => r matches Err(ConnectError::Message(text)) && text@
                == "unified api key defines neither `private_key` nor `aws_kms_key`"@,
        }
    }
}

/// `r` is the unified API key with the private key in the PEM file `data`, or the error.
pub open spec fn is_pem_key(
    issuer_id: Seq<char>,
    key_id: Seq<char>,
    data: Seq<u8>,
    r: Result<UnifiedApiKey, ConnectError>,
) -> bool {
    match pem_block(data) {
        Ok(block) if block.0 == "PRIVATE KEY"@ => r matches Ok(key) && key@ == (ApiKeyView {
            issuer_id,
            key_id,
            private_key: Some(base64_standard(block.1)),
            aws_kms_key: None,
            aws_kms_region: None,
        }),
        _ => r == Err::<UnifiedApiKey, ConnectError>(
            ConnectError::InvalidPemPrivateKey(InvalidPemPrivateKey),
        ),
    }
}

/// The names of the members of a unified API key differ.
proof fn lemma_member_names()
    ensures
        "issuer_id"@ != "key_id"@,
        "issuer_id"@ != "private_key"@,
        "issuer_id"@ != "aws_kms_key"@,
        "issuer_id"@ != "aws_kms_region"@,
        "key_id"@ != "private_key"@,
        "key_id"@ != "aws_kms_key"@,
        "key_id"@ != "aws_kms_region"@,
        "private_key"@ != "aws_kms_key"@,
        "private_key"@ != "aws_kms_region"@,
        "aws_kms_key"@ != "aws_kms_region"@,
{
    reveal_strlit("issuer_id");
    reveal_strlit("key_id");
    reveal_strlit("private_key");
    reveal_strlit("aws_kms_key");
    reveal_strlit("aws_kms_region");
    assert("issuer_id"@.len() == 9);
    assert("key_id"@.len() == 6);
    assert("private_key"@.len() == 11);
    assert("aws_kms_key"@.len() == 11);
    assert("aws_kms_region"@.len() == 14);
    assert("private_key"@[0] != "aws_kms_key"@[0]);
}

/// Adds the member `name` where there is a value.
fn insert_optional(
    object: &mut serde_json::Map<String, serde_json::Value>,
    name: &str,
    value: &Option<String>,
)
    requires
        object_members(*old(object)) is Some,
        !has_member(object_members(*old(object))->0, name@),
    ensures
        object_members(*final(object)) == Some(
            object_members(*old(object))->0 + optional_member(name@, text_view(*value)),
        ),
{
    match value {
        Some(text) => {
            insert_member(object, name, JsonScalar::Text(text.clone()));
            assert(object_members(*object)->0 =~= object_members(*old(object))->0
                + optional_member(name@, text_view(*value)));
        },
        None => {
            assert(object_members(*object)->0 =~= object_members(*old(object))->0
                + optional_member(name@, text_view(*value)));
        },
    }
}

impl UnifiedApiKey {
    /// Construct an instance from its parts.
    pub fn from_parts(
        issuer_id: String,
        key_id: String,
        private_key: Option<String>,
        aws_kms_key: Option<String>,
        aws_kms_region: Option<String>,
    ) -> (key: Self)
        ensures
            key@ == (ApiKeyView {
                issuer_id: issuer_id@,
                key_id: key_id@,
                private_key: text_view(private_key),
                aws_kms_key: text_view(aws_kms_key),
                aws_kms_region: text_view(aws_kms_region),
            }),
    {
        Self { issuer_id, key_id, private_key, aws_kms_key, aws_kms_region }
    }

    /// Take the instance apart: issuer, key identifier, private key, KMS key and its region.
    pub fn into_parts(
        self,
    ) -> (parts: (String, String, Option<String>, Option<String>, Option<String>))
        ensures
            self@ == (ApiKeyView {
                issuer_id: parts.0@,
                key_id: parts.1@,
                private_key: text_view(parts.2),
                aws_kms_key: text_view(parts.3),
                aws_kms_region: text_view(parts.4),
            }),
    {
        (self.issuer_id, self.key_id, self.private_key, self.aws_kms_key, self.aws_kms_region)
    }

    /// Construct an instance from constituent parts and what reading a PEM encoded private
    /// key came back with.
    pub fn from_pem_outcome(
        issuer_id: &str,
        key_id: &str,
        pem: Result<PemBlock, pem::PemError>,
    ) -> (r: Result<Self, ConnectError>)
        ensures
            match pem {
                Ok(block) if block.tag@ == "PRIVATE KEY"@ => r matches Ok(key) && key@ == (
                ApiKeyView {
                    issuer_id: issuer_id@,
                    key_id: key_id@,
                    private_key: Some(base64_standard(block.contents@)),
                    aws_kms_key: None,
                    aws_kms_region: None,
                }),
                _ => r == Err::<Self, ConnectError>(
                    ConnectError::InvalidPemPrivateKey(InvalidPemPrivateKey),
                ),
            },
    {
        let block = match pem {
            Ok(block) => block,
            Err(_) => return Err(ConnectError::InvalidPemPrivateKey(InvalidPemPrivateKey)),
        };

        if block.tag != "PRIVATE KEY".to_owned() {
            return Err(ConnectError::InvalidPemPrivateKey(InvalidPemPrivateKey));
        }
        let private_key = encode_standard(block.contents.as_slice());

        Ok(
            Self {
                issuer_id: issuer_id.to_owned(),
                key_id: key_id.to_owned(),
                private_key: Some(private_key),
                aws_kms_key: None,
                aws_kms_region: None,
            },
        )
    }

    /// Construct an instance from constituent parts and a PEM encoded ECDSA private key.
    ///
    /// This is what you want to use if importing a private key from the file downloaded
    /// from the App Store Connect web interface.
    pub fn from_ecdsa_pem(
        issuer_id: &str,
        key_id: &str,
        pem_data: &[u8],
    ) -> (r: Result<Self, ConnectError>)
        ensures
            is_pem_key(issuer_id@, key_id@, pem_data@, r),
    {
        Self::from_pem_outcome(issuer_id, key_id, parse_pem(pem_data))
    }

    /// Construct an instance referencing a private key held in AWS KMS.
    ///
    /// The resulting instance (and its JSON serialization) contains no secret material:
    /// signing requires AWS credentials authorized to use the referenced KMS key.
    pub fn from_aws_kms_key(
        issuer_id: &str,
        key_id: &str,
        aws_kms_key: &str,
        aws_kms_region: Option<String>,
    ) -> (key: Self)
        ensures
            key@ == (ApiKeyView {
                issuer_id: issuer_id@,
                key_id: key_id@,
                private_key: None,
                aws_kms_key: Some(aws_kms_key@),
                aws_kms_region: text_view(aws_kms_region),
            }),
    {
        Self {
            issuer_id: issuer_id.to_owned(),
            key_id: key_id.to_owned(),
            private_key: None,
            aws_kms_key: Some(aws_kms_key.to_owned()),
            aws_kms_region,
        }
    }

    /// Serialize this instance to a JSON object.
    pub fn to_json_string(&self) -> (r: Result<String, ConnectError>)
        ensures
            r matches Ok(text) && text@ == json_pretty(self@.members()),
    {
        proof {
            lemma_member_names();
        }
        let mut object = new_object();
        insert_member(&mut object, "issuer_id", JsonScalar::Text(self.issuer_id.clone()));
        insert_member(&mut object, "key_id", JsonScalar::Text(self.key_id.clone()));
        insert_optional(&mut object, "private_key", &self.private_key);
        insert_optional(&mut object, "aws_kms_key", &self.aws_kms_key);
        insert_optional(&mut object, "aws_kms_region", &self.aws_kms_region);
        assert(object_members(object)->0 =~= self@.members());

        match object_to_string_pretty(&object) {
            Ok(text) => Ok(text),
            Err(e) => Err(ConnectError::Json(e)),
        }
    }
}

impl ConnectTokenEncoder {
    /// Find the encoder of a unified API key: with the private key that it holds, or with
    /// the AWS KMS key that it references, if AWS KMS can be used. The two are mutually
    /// exclusive: a key with both is refused.
    pub fn try_from(
        value: UnifiedApiKey,
        kms_enabled: bool,
    ) -> (r: Result<KeyResolution, ConnectError>)
        ensures
            value@.resolves_to(kms_enabled, r),
    {
        if value.private_key.is_some() && value.aws_kms_key.is_some() {
            return Err(
                ConnectError::Message(
                    "unified api key defines both `private_key` and `aws_kms_key`".to_owned(),
                ),
            );
        }

        if let Some(private_key) = value.private_key {
            let der = match decode_standard(private_key.as_str()) {
                Ok(der) => der,
                Err(e) => return Err(ConnectError::InvalidUnifiedApiKey(e)),
            };
            proof {
                assert forall|other: Seq<u8>|
                    private_key@ == #[trigger] base64_standard(other) implies other == der@ by {
                    law_base64_determines_bytes(other, der@);
                }
            }

            return match ConnectTokenEncoder::from_ecdsa_der(
                value.key_id,
                value.issuer_id,
                der.as_slice(),
            ) {
                Ok(encoder) => Ok(KeyResolution::Ready(encoder)),
                Err(e) => Err(e),
            };
        }

        if let Some(kms_key) = value.aws_kms_key {
            if kms_enabled {
                return Ok(
                    KeyResolution::AwsKms(
                        KmsTokenKey {
                            key_id: value.key_id,
                            issuer_id: value.issuer_id,
                            kms_key,
                            region: value.aws_kms_region,
                        },
                    ),
                );
            }
            return Err(
                ConnectError::Message(
                    join3(
                        "unified api key references AWS KMS key ",
                        kms_key.as_str(),
                        " but AWS KMS support is not compiled in (enable the `aws-kms` Cargo feature)",
                    ),
                ),
            );
        }

        Err(
            ConnectError::Message(
                "unified api key defines neither `private_key` nor `aws_kms_key`".to_owned(),
            ),
        )
    }
}

impl KmsTokenKey {
    /// The encoder for this key, from what connecting to the KMS key came back with.
    pub fn connected(
        self,
        signer: Result<Arc<dyn Es256Signer>, ConnectError>,
    ) -> (r: Result<ConnectTokenEncoder, ConnectError>)
        ensures
            match signer {
                Ok(s) => r matches Ok(encoder) && encoder@.key_id == self.key_id@
                    && encoder@.issuer_id == self.issuer_id@ && (encoder@.signing_key matches
                    TokenSigningKey::Custom(external) && external.signer == s),
                Err(e) => r == Err::<ConnectTokenEncoder, ConnectError>(e),
            },
    {
        match signer {
            Ok(signer) => {
                let external = ExternalSigner { signer };
                Ok(ConnectTokenEncoder::from_external(self.key_id, self.issuer_id, external))
            },
            Err(e) => Err(e),
        }
    }
}

/// A key without private key material is written without any: its JSON object has no
/// `private_key` member, and none at all but the metadata and the KMS reference.
pub proof fn law_no_private_key_is_written(key: ApiKeyView)
    requires
        key.private_key is None,
    ensures
        !has_member(key.members(), "private_key"@),
        forall|i: int|
            0 <= i < key.members().len() ==> {
                let name = (#[trigger] key.members()[i]).0;
                name == "issuer_id"@ || name == "key_id"@ || name == "aws_kms_key"@ || name
                    == "aws_kms_region"@
            },
{
    lemma_member_names();
}

/// The JSON text of a key determines the key: nothing is lost when it is written.
pub proof fn law_json_determines_key(a: ApiKeyView, b: ApiKeyView)
    requires
        json_pretty(a.members()) == json_pretty(b.members()),
    ensures
        a == b,
{
    law_json_determines_members(a.members(), b.members());
    lemma_member_names();
    lemma_lookup(a);
    lemma_lookup(b);
    assert(a.members()[0] == ("issuer_id"@, ScalarView::Text(a.issuer_id)));
    assert(b.members()[0] == ("issuer_id"@, ScalarView::Text(b.issuer_id)));
    assert(a.members()[1] == ("key_id"@, ScalarView::Text(a.key_id)));
    assert(b.members()[1] == ("key_id"@, ScalarView::Text(b.key_id)));
}

/// The value of the text member `name`, if there is one.
spec fn lookup(members: Members, name: Seq<char>) -> Option<Seq<char>> {
    if has_member(members, name) {
        let i = choose|i: int| 0 <= i < members.len() && (#[trigger] members[i]).0 == name;
        match members[i].1 {
            ScalarView::Text(text) => Some(text),
            ScalarView::Number(_) => None,
        }
    } else {
        None
    }
}

proof fn lemma_lookup(key: ApiKeyView)
    ensures
        lookup(key.members(), "private_key"@) == key.private_key,
        lookup(key.members(), "aws_kms_key"@) == key.aws_kms_key,
        lookup(key.members(), "aws_kms_region"@) == key.aws_kms_region,
{
    lemma_member_names();
    let m = key.members();
    let p: int = if key.private_key is Some {
        1
    } else {
        0
    };
    let k: int = if key.aws_kms_key is Some {
        1
    } else {
        0
    };
    if key.private_key is Some {
        assert(m[2] == ("private_key"@, ScalarView::Text(key.private_key->0)));
    }
    if key.aws_kms_key is Some {
        assert(m[2 + p] == ("aws_kms_key"@, ScalarView::Text(key.aws_kms_key->0)));
    }
    if key.aws_kms_region is Some {
        assert(m[2 + p + k] == ("aws_kms_region"@, ScalarView::Text(key.aws_kms_region->0)));
    }
}

/// A private key that was imported comes out again: a key whose private key is the base64
/// text of `der`, and that references no KMS key, resolves to the encoder for `der`, whether
/// or not AWS KMS can be used.
pub proof fn law_private_key_comes_back(
    key: ApiKeyView,
    der: Seq<u8>,
    kms_enabled: bool,
    r: Result<KeyResolution, ConnectError>,
)
    requires
        key.private_key == Some(base64_standard(der)),
        key.aws_kms_key is None,
        key.resolves_to(kms_enabled, r),
    ensures
        r matches Ok(KeyResolution::Ready(encoder)) && encoder@ == key.encoder(der),
        is_ec_key_of(ec_der_key(der), der),
{
}

/// A PEM file gives the same encoder either way: one that an encoder can be made from
/// directly can also be imported into a unified API key, which resolves to that encoder.
pub proof fn law_imported_pem_gives_same_encoder(
    issuer_id: Seq<char>,
    key_id: Seq<char>,
    data: Seq<u8>,
    encoder: ConnectTokenEncoder,
    imported: Result<UnifiedApiKey, ConnectError>,
    kms_enabled: bool,
    r: Result<KeyResolution, ConnectError>,
)
    requires
        is_pem_encoder(key_id, issuer_id, data, Ok(encoder)),
        is_pem_key(issuer_id, key_id, data, imported),
        imported matches Ok(key) ==> key@.resolves_to(kms_enabled, r),
    ensures
        imported is Ok,
        r matches Ok(KeyResolution::Ready(other)) && other@ == encoder@,
{
    let der = pem_block(data)->Ok_0.1;
    law_private_key_comes_back(imported->Ok_0@, der, kms_enabled, r);
}

/// A key that references AWS KMS is never used to sign in memory: it resolves to the KMS key
/// or is refused, and is refused whenever it holds a private key as well.
pub proof fn law_kms_key_never_signs_in_memory(
    key: ApiKeyView,
    kms_enabled: bool,
    r: Result<KeyResolution, ConnectError>,
)
    requires
        key.aws_kms_key is Some,
        key.resolves_to(kms_enabled, r),
    ensures
        !(r matches Ok(KeyResolution::Ready(_))),
        r is Ok <==> key.private_key is None && kms_enabled,
        r matches Ok(KeyResolution::AwsKms(kms)) ==> Some(kms.kms_key@) == key.aws_kms_key,
{
}

} // verus!
