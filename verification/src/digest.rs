//! BLAKE3 and HKDF-SHA256.

use hkdf::Hkdf;
use sha2::Sha256;
use vstd::prelude::*;

verus! {

/// The BLAKE3 hash of a byte string.
pub uninterp spec fn blake3_hash(input: Seq<u8>) -> Seq<u8>;

/// The BLAKE3 hash of a byte string under a key.
pub uninterp spec fn blake3_keyed_hash(key: Seq<u8>, input: Seq<u8>) -> Seq<u8>;

/// The 32 bytes that HKDF-SHA256 extracts from `ikm` with `salt` and expands for
/// `info`.
pub uninterp spec fn hkdf_sha256(salt: Seq<u8>, ikm: Seq<u8>, info: Seq<u8>) -> Seq<u8>;

/// `blake3::hash`: its result depends on the input alone.
#[verifier::external_body]
pub(crate) fn hash(input: &[u8]) -> (digest: [u8; 32])
    ensures
        digest@ == blake3_hash(input@),
{
    *blake3::hash(input).as_bytes()
}

/// `blake3::keyed_hash`: its result depends on the key and the input alone.
#[verifier::external_body]
pub(crate) fn keyed_hash(key: &[u8; 32], input: &[u8]) -> (digest: [u8; 32])
    ensures
        digest@ == blake3_keyed_hash(key@, input@),
{
    *blake3::keyed_hash(key, input).as_bytes()
}

/// What `hkdf` reports where more bytes are asked for than it can expand to.
#[verifier::external_type_specification]
#[verifier::external_body]
pub struct ExInvalidLength(hkdf::InvalidLength);

/// `Hkdf::<Sha256>::new` and `expand` for 32 bytes, which is one block and so
/// never too long: the result depends on salt, key material and info alone.
#[verifier::external_body]
pub(crate) fn extract_and_expand(salt: &[u8], ikm: &[u8], info: &[u8]) -> (okm: Result<
    [u8; 32],
    hkdf::InvalidLength,
>)
    ensures
        okm is Ok,
        okm->Ok_0@ == hkdf_sha256(salt@, ikm@, info@),
{
    let mut out: [u8; 32] = [0u8; 32];
    Hkdf::<Sha256>::new(Some(salt), ikm).expand(info, &mut out)?;
    Ok(out)
}

} // verus!
