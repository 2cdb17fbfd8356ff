//! The hash functions that the tools offer. None is computed here: each is
//! a call into the crate that implements it.

use sha2::Digest;
use vstd::prelude::*;

verus! {

/// The BLAKE2b digest of `data` in 224 bits.
pub uninterp spec fn blake2b_224(data: Seq<u8>) -> Seq<u8>;

/// The BLAKE2b digest of `data` in 256 bits.
pub uninterp spec fn blake2b_256(data: Seq<u8>) -> Seq<u8>;

/// The SHA-256 digest of `data`.
pub uninterp spec fn sha256(data: Seq<u8>) -> Seq<u8>;

/// The SHA-512 digest of `data`.
pub uninterp spec fn sha512(data: Seq<u8>) -> Seq<u8>;

/// `Hasher::<224>::hash` of pallas.
///
/// Trusted: the digest is a function of the data and has 28 bytes.
#[verifier::external_body]
pub(crate) fn hash_blake2b_224(data: &[u8]) -> (r: Vec<u8>)
    ensures
        r@ == blake2b_224(data@),
        r@.len() == 28,
{
    pallas::crypto::hash::Hasher::<224>::hash(data).to_vec()
}

/// `Hasher::<256>::hash` of pallas.
///
/// Trusted: the digest is a function of the data and has 32 bytes.
#[verifier::external_body]
pub(crate) fn hash_blake2b_256(data: &[u8]) -> (r: Vec<u8>)
    ensures
        r@ == blake2b_256(data@),
        r@.len() == 32,
{
    pallas::crypto::hash::Hasher::<256>::hash(data).to_vec()
}

/// `Sha256` of sha2: `new`, `update` with the data, `finalize`.
///
/// Trusted: the digest is a function of the data and has 32 bytes.
#[verifier::external_body]
pub(crate) fn hash_sha256(data: &[u8]) -> (r: Vec<u8>)
    ensures
        r@ == sha256(data@),
        r@.len() == 32,
{
    let mut hasher = sha2::Sha256::new();
    hasher.update(data);
    hasher.finalize().to_vec()
}

/// `Sha512` of sha2: `new`, `update` with the data, `finalize`.
///
/// Trusted: the digest is a function of the data and has 64 bytes.
#[verifier::external_body]
pub(crate) fn hash_sha512(data: &[u8]) -> (r: Vec<u8>)
    ensures
        r@ == sha512(data@),
        r@.len() == 64,
{
    let mut hasher = sha2::Sha512::new();
    hasher.update(data);
    hasher.finalize().to_vec()
}

} // verus!
