//! Ed25519 and ECDSA over secp256k1. Nothing is computed here: each
//! function is a call into the crate that implements the scheme.

use vstd::prelude::*;

verus! {

/// The Ed25519 public key that belongs to the 32-byte secret `seed`.
pub uninterp spec fn ed25519_public_key(seed: Seq<u8>) -> Seq<u8>;

/// The Ed25519 signature of `message` under `keypair`, which is the secret
/// followed by the public key.
pub uninterp spec fn ed25519_signing(message: Seq<u8>, keypair: Seq<u8>) -> Seq<u8>;

/// Whether `signature` is a valid Ed25519 signature of `message` under
/// `public_key`.
pub uninterp spec fn ed25519_verifies(
    message: Seq<u8>,
    public_key: Seq<u8>,
    signature: Seq<u8>,
) -> bool;

/// Whether the 32 bytes are a secret key of secp256k1.
pub uninterp spec fn secp256k1_valid_key(key: Seq<u8>) -> bool;

/// The public key of the secret `key`, in its compressed form.
pub uninterp spec fn secp256k1_public_key(key: Seq<u8>) -> Seq<u8>;

/// The ECDSA signature of `digest` under `key`, in its compact form.
pub uninterp spec fn secp256k1_signing(key: Seq<u8>, digest: Seq<u8>) -> Seq<u8>;

/// Whether the compact `signature` is a valid ECDSA signature of `digest`
/// under the compressed `public_key`.
pub uninterp spec fn secp256k1_verifies(
    digest: Seq<u8>,
    signature: Seq<u8>,
    public_key: Seq<u8>,
) -> bool;

/// `ed25519::keypair` of cryptoxide.
///
/// Trusted: the public key is a function of the secret, and the key pair is
/// the secret followed by the public key.
#[verifier::external_body]
pub(crate) fn ed25519_keypair(seed: &[u8; 32]) -> (r: ([u8; 64], [u8; 32]))
    ensures
        r.1@ == ed25519_public_key(seed@),
        r.0@ == seed@ + r.1@,
{
    cryptoxide::ed25519::keypair(seed)
}

/// `ed25519::signature` of cryptoxide.
///
/// Trusted: the signature is a function of the message and the key pair.
#[verifier::external_body]
pub(crate) fn ed25519_signature(message: &[u8], keypair: &[u8; 64]) -> (r: [u8; 64])
    ensures
        r@ == ed25519_signing(message@, keypair@),
{
    cryptoxide::ed25519::signature(message, keypair)
}

/// `ed25519::verify` of cryptoxide.
///
/// Trusted: the verdict is a function of the three arguments.
#[verifier::external_body]
pub(crate) fn ed25519_verify(
    message: &[u8],
    public_key: &[u8; 32],
    signature: &[u8; 64],
) -> (r: bool)
    ensures
        r == ed25519_verifies(message@, public_key@, signature@),
{
    cryptoxide::ed25519::verify(message, public_key, signature)
}

/// `SecretKey::from_byte_array` of secp256k1, asked only whether it accepts.
///
/// Trusted: the verdict is a function of the bytes.
#[verifier::external_body]
pub(crate) fn secp256k1_key_ok(key: &[u8; 32]) -> (r: bool)
    ensures
        r == secp256k1_valid_key(key@),
{
    secp256k1::SecretKey::from_byte_array(key).is_ok()
}

/// `SecretKey::public_key` of secp256k1, then `PublicKey::serialize`.
///
/// Trusted: the public key is a function of the secret key.
#[verifier::external_body]
pub(crate) fn secp256k1_public(key: &[u8; 32]) -> (r: [u8; 33])
    requires
        secp256k1_valid_key(key@),
    ensures
        r@ == secp256k1_public_key(key@),
{
    let context = secp256k1::Secp256k1::new();
    secp256k1::SecretKey::from_byte_array(key).unwrap().public_key(&context).serialize()
}

/// `Secp256k1::sign_ecdsa`, then `Signature::serialize_compact`.
///
/// Trusted: the nonce is derived from the key and the digest, so that the
/// signature is a function of the two.
#[verifier::external_body]
pub(crate) fn secp256k1_sign(key: &[u8; 32], digest: &[u8; 32]) -> (r: [u8; 64])
    requires
        secp256k1_valid_key(key@),
    ensures
        r@ == secp256k1_signing(key@, digest@),
{
    let context = secp256k1::Secp256k1::new();
    let secret = secp256k1::SecretKey::from_byte_array(key).unwrap();
    let message = secp256k1::Message::from_digest(*digest);
    context.sign_ecdsa(&message, &secret).serialize_compact()
}

/// `Secp256k1::verify_ecdsa`, on a signature and a public key that are read
/// back from their bytes.
///
/// Trusted: the verdict is a function of the three arguments.
#[verifier::external_body]
pub(crate) fn secp256k1_verify(
    digest: &[u8; 32],
    signature: &[u8; 64],
    public_key: &[u8; 33],
) -> (r: bool)
    ensures
        r == secp256k1_verifies(digest@, signature@, public_key@),
{
    let message = secp256k1::Message::from_digest(*digest);
    let signature = secp256k1::ecdsa::Signature::from_compact(signature);
    let public_key = secp256k1::PublicKey::from_byte_array_compressed(public_key);
    match (signature, public_key) {
        (Ok(s), Ok(p)) => secp256k1::Secp256k1::new().verify_ecdsa(&message, &s, &p).is_ok(),
        _ => false,
    }
}

/// `Secp256k1::generate_keypair` with the random numbers of the operating
/// system, then `SecretKey::secret_bytes`.
///
/// Trusted: whatever is drawn, it is a secret key of the curve.
#[verifier::external_body]
pub(crate) fn generate_secret_key() -> (r: [u8; 32])
    ensures
        secp256k1_valid_key(r@),
{
    let mut rng = secp256k1::rand::rngs::OsRng;
    secp256k1::Secp256k1::new().generate_keypair(&mut rng).0.secret_bytes()
}

} // verus!
