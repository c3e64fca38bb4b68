//! Trusted bindings to the two signature schemes.
//!
//! The classical half of the hybrid scheme is Ed25519 over a SHA-512
//! prehash; the post-quantum half is Dilithium 5. Every function of this
//! module takes and returns plain byte vectors; the contracts speak of the
//! schemes' results through named spec functions, since no short formula
//! states what a signature is.

use ed25519_dalek::Digest;
use pqcrypto_traits::sign::DetachedSignature as _;
use pqcrypto_traits::sign::PublicKey as _;
use pqcrypto_traits::sign::SecretKey as _;
use vstd::prelude::*;

verus! {

/// Byte length of an Ed25519 secret key.
pub const ED_SECRET_KEY_LENGTH: usize = 32;

/// Byte length of an Ed25519 public key.
pub const ED_PUBLIC_KEY_LENGTH: usize = 32;

/// Byte length of an Ed25519 signature.
pub const ED_SIGNATURE_LENGTH: usize = 64;

/// Byte length of a Dilithium 5 secret key.
pub const PQ_SECRET_KEY_LENGTH: usize = 4896;

/// Byte length of a Dilithium 5 public key.
pub const PQ_PUBLIC_KEY_LENGTH: usize = 2592;

/// The Ed25519 public key derived from a 32-byte secret key.
pub uninterp spec fn ed_pub_of(sk: Seq<u8>) -> Seq<u8>;

/// The Ed25519 signature of `msg` under `sk`, over a SHA-512 prehash.
/// Ed25519 signing is deterministic, so this is a function of its inputs.
pub uninterp spec fn ed_sign_of(sk: Seq<u8>, msg: Seq<u8>) -> Seq<u8>;

/// Whether `sig` is a valid Ed25519 signature of the SHA-512 prehash of
/// `msg` under the public key `pk`; false as well when `pk` or `sig` do not
/// parse as a key or signature.
pub uninterp spec fn ed_verify_of(pk: Seq<u8>, msg: Seq<u8>, sig: Seq<u8>) -> bool;

/// The Dilithium 5 public key belonging to a secret key. The secret key
/// determines the public key: it carries the seed and the secret vectors
/// from which the public matrix and vector are recomputed.
pub uninterp spec fn pq_pub_of(sk: Seq<u8>) -> Seq<u8>;

/// Whether `sk` is a Dilithium 5 secret key as the scheme's key generation
/// produces it, so that its signatures verify under `pq_pub_of(sk)`.
pub uninterp spec fn pq_valid_secret(sk: Seq<u8>) -> bool;

/// Whether `sig` is a valid Dilithium 5 signature of `msg` under the public
/// key `pk`; false as well when `pk` or `sig` have the wrong length.
pub uninterp spec fn pq_verify_of(pk: Seq<u8>, msg: Seq<u8>, sig: Seq<u8>) -> bool;

/// Relies on ed25519_dalek: a fresh 32-byte secret key from the operating
/// system's random generator, with the public key that
/// `PublicKey::from(&SecretKey)` derives from it. Returns `None` only when
/// the random generator fails.
#[verifier::external_body]
pub(crate) fn ed_generate() -> (r: Option<(Vec<u8>, Vec<u8>)>)
    ensures
        match r {
            Some(kp) => {
                &&& kp.0@.len() == ED_SECRET_KEY_LENGTH
                &&& kp.1@ == ed_pub_of(kp.0@)
                &&& kp.1@.len() == ED_PUBLIC_KEY_LENGTH
            },
            None => true,
        },
{
    let mut seed = [0u8; 32];
    rand::RngCore::try_fill_bytes(&mut rand::rngs::OsRng, &mut seed).ok()?;
    let secret = ed25519_dalek::SecretKey::from_bytes(&seed).ok()?;
    let public: ed25519_dalek::PublicKey = (&secret).into();
    Some((seed.to_vec(), public.to_bytes().to_vec()))
}

/// Relies on ed25519_dalek's `PublicKey::from(&SecretKey)`: the public key
/// is derived from the secret bytes alone, and any 32-byte string is a
/// well-formed secret key.
#[verifier::external_body]
pub(crate) fn ed_public_from_secret(sk: &[u8]) -> (r: Option<Vec<u8>>)
    ensures
        match r {
            Some(pk) => {
                &&& sk@.len() == ED_SECRET_KEY_LENGTH
                &&& pk@ == ed_pub_of(sk@)
                &&& pk@.len() == ED_PUBLIC_KEY_LENGTH
            },
            None => sk@.len() != ED_SECRET_KEY_LENGTH,
        },
{
    let secret = ed25519_dalek::SecretKey::from_bytes(sk).ok()?;
    let public: ed25519_dalek::PublicKey = (&secret).into();
    Some(public.to_bytes().to_vec())
}

/// Relies on ed25519_dalek's `Keypair::sign_prehashed` over a SHA-512
/// prehash of the message, without a context string: signing is
/// deterministic, and the signature it produces verifies under the derived
/// public key.
#[verifier::external_body]
pub(crate) fn ed_sign_raw(sk: &[u8], msg: &[u8]) -> (r: Option<Vec<u8>>)
    ensures
        match r {
            Some(sig) => {
                &&& sk@.len() == ED_SECRET_KEY_LENGTH
                &&& sig@ == ed_sign_of(sk@, msg@)
                &&& sig@.len() == ED_SIGNATURE_LENGTH
                &&& ed_verify_of(ed_pub_of(sk@), msg@, sig@)
            },
            None => sk@.len() != ED_SECRET_KEY_LENGTH,
        },
{
    let secret = ed25519_dalek::SecretKey::from_bytes(sk).ok()?;
    let public: ed25519_dalek::PublicKey = (&secret).into();
    let keypair = ed25519_dalek::Keypair { secret, public };
    let mut prehashed = ed25519_dalek::Sha512::new();
    prehashed.update(msg);
    let sig = keypair.sign_prehashed(prehashed, None).ok()?;
    Some(sig.to_bytes().to_vec())
}

/// Relies on ed25519_dalek's `PublicKey::verify_prehashed` over a SHA-512
/// prehash of the message: verification is a function of key, message and
/// signature; a key or signature that does not parse verifies nothing.
#[verifier::external_body]
pub(crate) fn ed_verify_raw(pk: &[u8], msg: &[u8], sig: &[u8]) -> (r: bool)
    ensures
        r == ed_verify_of(pk@, msg@, sig@),
{
    let public = match ed25519_dalek::PublicKey::from_bytes(pk) {
        Ok(p) => p,
        Err(_) => return false,
    };
    let signature = match ed25519_dalek::Signature::try_from(sig) {
        Ok(s) => s,
        Err(_) => return false,
    };
    let mut prehashed = ed25519_dalek::Sha512::new();
    prehashed.update(msg);
    public.verify_prehashed(prehashed, None, &signature).is_ok()
}

/// Relies on pqcrypto_dilithium's `dilithium5::keypair`: a fresh Dilithium 5
/// key pair whose public half belongs to its secret half.
#[verifier::external_body]
pub(crate) fn pq_generate() -> (r: (Vec<u8>, Vec<u8>))
    ensures
        r.0@.len() == PQ_SECRET_KEY_LENGTH,
        r.1@ == pq_pub_of(r.0@),
        r.1@.len() == PQ_PUBLIC_KEY_LENGTH,
        pq_valid_secret(r.0@),
{
    let (pk, sk) = pqcrypto_dilithium::dilithium5::keypair();
    (sk.as_bytes().to_vec(), pk.as_bytes().to_vec())
}

/// Relies on pqcrypto_dilithium's `dilithium5::detached_sign`: the signature
/// of a well-formed secret key verifies under the key's public half; every
/// signature has the scheme's fixed length.
#[verifier::external_body]
pub(crate) fn pq_sign_raw(sk: &[u8], msg: &[u8]) -> (r: Option<Vec<u8>>)
    ensures
        match r {
            Some(sig) => {
                &&& sk@.len() == PQ_SECRET_KEY_LENGTH
                &&& sig@.len() == crate::codec::PQ_SIGNATURE_LENGTH
                &&& (pq_valid_secret(sk@) ==> pq_verify_of(pq_pub_of(sk@), msg@, sig@))
            },
            None => sk@.len() != PQ_SECRET_KEY_LENGTH,
        },
{
    let sk = pqcrypto_dilithium::dilithium5::SecretKey::from_bytes(sk).ok()?;
    let sig = pqcrypto_dilithium::dilithium5::detached_sign(msg, &sk);
    Some(sig.as_bytes().to_vec())
}

/// Relies on pqcrypto_dilithium's `dilithium5::verify_detached_signature`:
/// verification is a function of key, message and signature; a key or
/// signature of the wrong length verifies nothing.
#[verifier::external_body]
pub(crate) fn pq_verify_raw(pk: &[u8], msg: &[u8], sig: &[u8]) -> (r: bool)
    ensures
        r == pq_verify_of(pk@, msg@, sig@),
{
    let pk = match pqcrypto_dilithium::dilithium5::PublicKey::from_bytes(pk) {
        Ok(p) => p,
        Err(_) => return false,
    };
    let sig = match pqcrypto_dilithium::dilithium5::DetachedSignature::from_bytes(sig) {
        Ok(s) => s,
        Err(_) => return false,
    };
    pqcrypto_dilithium::dilithium5::verify_detached_signature(&sig, msg, &pk).is_ok()
}

} // verus!
