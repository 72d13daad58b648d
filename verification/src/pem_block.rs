//! PEM files.
use vstd::prelude::*;

verus! {

/// The error of a PEM file that cannot be read.
#[verifier::external_type_specification]
#[verifier::external_body]
pub struct ExPemError(pem::PemError);

/// What `pem::parse` reads from `data`: the tag and the decoded contents.
pub uninterp spec fn pem_block(data: Seq<u8>) -> Result<(Seq<char>, Seq<u8>), pem::PemError>;

/// A PEM block's tag and decoded contents.
pub struct PemBlock {
    /// The tag between `BEGIN` and the dashes.
    pub tag: String,
    /// The contents, decoded from base64.
    pub contents: Vec<u8>,
}

/// The outcome of reading a PEM block, by what the block holds.
pub open spec fn pem_view(r: Result<PemBlock, pem::PemError>) -> Result<
    (Seq<char>, Seq<u8>),
    pem::PemError,
> {
    match r {
        Ok(block) => Ok((block.tag@, block.contents@)),
        Err(e) => Err(e),
    }
}

/// Calls `pem::parse`.
/// Trusted: the outcome depends on `data` alone.
#[verifier::external_body]
pub(crate) fn parse_pem(data: &[u8]) -> (r: Result<PemBlock, pem::PemError>)
    ensures
        pem_view(r) == pem_block(data@),
{
    pem::parse(data).map(|block| PemBlock {
        tag: block.tag().to_owned(),
        contents: block.into_contents(),
    })
}

} // verus!
