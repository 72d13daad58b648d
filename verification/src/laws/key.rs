//! Laws of unified API keys.
use std::sync::Arc;

use vstd::prelude::*;

use crate::api_key::{KeyResolution, KmsTokenKey, UnifiedApiKey};
use crate::api_token::{ConnectTokenEncoder, Es256Signer};
use crate::base64_text::{base64_standard, standard_decode_error};
use crate::error::{ConnectError, InvalidPemPrivateKey};
use crate::json::{json_pretty, ScalarView};
use crate::jwt::{ec_der_key, is_ec_key, key_bytes};
use crate::laws::token::is_encoder_of;
use crate::pem_block::{pem_block, PemBlock};

verus! {

/// A key file is readable and writable by its owner, and nothing at all by anyone else.
pub proof fn law_key_file_is_private()
    ensures
        crate::PRIVATE_FILE_MODE / 0o100 == 6,
        crate::PRIVATE_FILE_MODE % 0o100 == 0,
{
}

/// The two optional texts are the same.
pub open spec fn same_text(a: Option<String>, b: Option<String>) -> bool {
    &&& a is Some <==> b is Some
    &&& a is Some ==> a->0@ == b->0@
}

/// The parts of a unified API key: issuer, key identifier, private key, KMS key and region.
pub type KeyParts = (String, String, Option<String>, Option<String>, Option<String>);

/// A unified API key holds exactly the parts that it was made from.
pub proof fn law_parts_come_back(parts: KeyParts, key: UnifiedApiKey, back: KeyParts)
    requires
        call_ensures(UnifiedApiKey::from_parts, parts, key),
        call_ensures(UnifiedApiKey::into_parts, (key,), back),
    ensures
        back.0@ == parts.0@,
        back.1@ == parts.1@,
        same_text(back.2, parts.2),
        same_text(back.3, parts.3),
        same_text(back.4, parts.4),
{
}

/// A key that references AWS KMS holds the reference and the region as they were given, and no
/// private key.
pub proof fn law_kms_reference_is_kept(
    issuer_id: &str,
    key_id: &str,
    aws_kms_key: &str,
    region: Option<String>,
    key: UnifiedApiKey,
    back: KeyParts,
)
    requires
        call_ensures(
            UnifiedApiKey::from_aws_kms_key,
            (issuer_id, key_id, aws_kms_key, region),
            key,
        ),
        call_ensures(UnifiedApiKey::into_parts, (key,), back),
    ensures
        back.0@ == issuer_id@,
        back.1@ == key_id@,
        back.2 is None,
        back.3 matches Some(kms_key) && kms_key@ == aws_kms_key@,
        same_text(back.4, region),
{
}

/// A PEM file is imported exactly where it holds a block tagged `PRIVATE KEY`, and the key
/// then holds the block's contents in base64 and references no KMS key.
pub proof fn law_pem_contents_are_imported(
    issuer_id: &str,
    key_id: &str,
    data: &[u8],
    r: Result<UnifiedApiKey, ConnectError>,
)
    requires
        call_ensures(UnifiedApiKey::from_ecdsa_pem, (issuer_id, key_id, data), r),
    ensures
        r is Ok <==> (pem_block(data@) matches Ok(block) && block.0 == "PRIVATE KEY"@),
        r is Err ==> r == Err::<UnifiedApiKey, ConnectError>(
            ConnectError::InvalidPemPrivateKey(InvalidPemPrivateKey),
        ),
        r matches Ok(key) ==> forall|back: KeyParts| #[trigger]
            call_ensures(UnifiedApiKey::into_parts, (key,), back) ==> {
                &&& back.0@ == issuer_id@
                &&& back.1@ == key_id@
                &&& back.2 matches Some(text) && text@ == base64_standard(pem_block(data@)->Ok_0.1)
                &&& back.3 is None
                &&& back.4 is None
            },
{
}

/// A PEM block is imported exactly where it is tagged `PRIVATE KEY`.
pub proof fn law_pem_block_is_imported(
    issuer_id: &str,
    key_id: &str,
    pem: Result<PemBlock, pem::PemError>,
    r: Result<UnifiedApiKey, ConnectError>,
)
    requires
        call_ensures(UnifiedApiKey::from_pem_outcome, (issuer_id, key_id, pem), r),
    ensures
        r is Ok <==> (pem matches Ok(block) && block.tag@ == "PRIVATE KEY"@),
        r is Err ==> r == Err::<UnifiedApiKey, ConnectError>(
            ConnectError::InvalidPemPrivateKey(InvalidPemPrivateKey),
        ),
        r matches Ok(key) ==> forall|back: KeyParts| #[trigger]
            call_ensures(UnifiedApiKey::into_parts, (key,), back) ==> {
                &&& back.0@ == issuer_id@
                &&& back.1@ == key_id@
                &&& back.2 matches Some(text) && text@ == base64_standard(pem->Ok_0.contents@)
                &&& back.3 is None
                &&& back.4 is None
            },
{
}

/// A key is written with its issuer and identifier, and with exactly those of the other parts
/// that it has, each as it was given.
pub proof fn law_parts_are_written(
    parts: KeyParts,
    key: UnifiedApiKey,
    json: Result<String, ConnectError>,
)
    requires
        call_ensures(UnifiedApiKey::from_parts, parts, key),
        call_ensures(UnifiedApiKey::to_json_string, (&key,), json),
    ensures
        json matches Ok(text) && text@ == json_pretty(
            seq![
                ("issuer_id"@, ScalarView::Text(parts.0@)),
                ("key_id"@, ScalarView::Text(parts.1@)),
            ] + (match parts.2 {
                Some(private_key) => seq![("private_key"@, ScalarView::Text(private_key@))],
                None => seq![],
            }) + (match parts.3 {
                Some(kms_key) => seq![("aws_kms_key"@, ScalarView::Text(kms_key@))],
                None => seq![],
            }) + (match parts.4 {
                Some(region) => seq![("aws_kms_region"@, ScalarView::Text(region@))],
                None => seq![],
            }),
        ),
{
}

/// A key with a private key alone resolves to the encoder of the bytes whose base64 text the
/// private key is, with the key's own identifier and issuer. It is refused exactly where the
/// private key is the base64 text of no bytes.
pub proof fn law_private_key_resolves_to_its_encoder(
    parts: KeyParts,
    key: UnifiedApiKey,
    kms_enabled: bool,
    r: Result<KeyResolution, ConnectError>,
)
    requires
        parts.2 is Some,
        parts.3 is None,
        call_ensures(UnifiedApiKey::from_parts, parts, key),
        call_ensures(ConnectTokenEncoder::try_from, (key, kms_enabled), r),
    ensures
        forall|der: Seq<u8>|
            parts.2->0@ == #[trigger] base64_standard(der) ==> {
                &&& r matches Ok(KeyResolution::Ready(encoder)) && is_encoder_of(
                    Ok(ec_der_key(der)),
                    parts.1@,
                    parts.0@,
                    Ok(encoder),
                )
                &&& is_ec_key(ec_der_key(der))
                &&& key_bytes(ec_der_key(der)) == der
            },
        (forall|der: Seq<u8>| parts.2->0@ != #[trigger] base64_standard(der)) ==> r == Err::<
            KeyResolution,
            ConnectError,
        >(ConnectError::InvalidUnifiedApiKey(standard_decode_error(parts.2->0@))),
{
}

/// A key that references AWS KMS alone resolves to exactly its own metadata: the key
/// identifier, the issuer, the KMS key and the region, which is none where the key has none.
/// Without AWS KMS it is refused by name.
pub proof fn law_kms_key_resolves_to_its_metadata(
    parts: KeyParts,
    key: UnifiedApiKey,
    kms_enabled: bool,
    r: Result<KeyResolution, ConnectError>,
)
    requires
        parts.2 is None,
        parts.3 is Some,
        call_ensures(UnifiedApiKey::from_parts, parts, key),
        call_ensures(ConnectTokenEncoder::try_from, (key, kms_enabled), r),
    ensures
        kms_enabled ==> {
            &&& r is Ok
            &&& r->Ok_0 matches KeyResolution::AwsKms(kms) && kms.key_id@ == parts.1@
                && kms.issuer_id@ == parts.0@ && kms.kms_key@ == parts.3->0@ && same_text(
                kms.region,
                parts.4,
            )
        },
        !kms_enabled ==> (r matches Err(ConnectError::Message(text)) && text@
            == "unified api key references AWS KMS key "@ + parts.3->0@
            + " but AWS KMS support is not compiled in (enable the `aws-kms` Cargo feature)"@),
{
}

/// A key with both a private key and a KMS key is refused, and so is one with neither.
pub proof fn law_exactly_one_key_is_needed(
    parts: KeyParts,
    key: UnifiedApiKey,
    kms_enabled: bool,
    r: Result<KeyResolution, ConnectError>,
)
    requires
        parts.2 is Some <==> parts.3 is Some,
        call_ensures(UnifiedApiKey::from_parts, parts, key),
        call_ensures(ConnectTokenEncoder::try_from, (key, kms_enabled), r),
    ensures
        r matches Err(ConnectError::Message(text)) && text@ == (if parts.2 is Some {
            "unified api key defines both `private_key` and `aws_kms_key`"@
        } else {
            "unified api key defines neither `private_key` nor `aws_kms_key`"@
        }),
{
}

/// A key in AWS KMS that was connected to gives the encoder of the connected signer, with the
/// key's own identifier and issuer; a failed connection gives its own error.
pub proof fn law_connected_key_signs_with_its_signer(
    args: (KmsTokenKey, Result<Arc<dyn Es256Signer>, ConnectError>),
    r: Result<ConnectTokenEncoder, ConnectError>,
    direct_args: (String, String, Arc<dyn Es256Signer>),
    direct: ConnectTokenEncoder,
)
    requires
        call_ensures(KmsTokenKey::connected, args, r),
        call_ensures(ConnectTokenEncoder::from_es256_signer, direct_args, direct),
        direct_args.0@ == args.0.key_id@,
        direct_args.1@ == args.0.issuer_id@,
        args.1 is Ok ==> direct_args.2 == args.1->Ok_0,
    ensures
        r is Ok <==> args.1 is Ok,
        r matches Ok(encoder) ==> encoder@.key_id == direct@.key_id && encoder@.issuer_id
            == direct@.issuer_id && encoder@.signing_key == direct@.signing_key,
        args.1 matches Err(e) ==> r == Err::<ConnectTokenEncoder, ConnectError>(e),
{
}

} // verus!
