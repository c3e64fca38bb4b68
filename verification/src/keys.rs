//! Hybrid key pair store.
//!
//! A key pair is persisted as a password-encrypted PKCS#8 document: an
//! `EncryptedPrivateKeyInfo` produced with scrypt and AES-256-CBC, wrapping
//! a `PrivateKeyInfo` that holds the scheme's object identifier, the private
//! key bytes, and the public key bytes. The public key is always embedded:
//! the post-quantum secret key is no compact seed, so dropping the public
//! half would force a fresh key generation on every load.
//!
//! Loading succeeds only when the embedded identifier matches the expected
//! scheme and the private key has the scheme's exact length; a post-quantum
//! document without a public key is rejected. The library hands the caller
//! DER bytes and takes DER bytes back; reading and writing the `.p8` files
//! is the caller's task.

use pkcs8::pkcs5::pbes2;
use pkcs8::pkcs5::scrypt::Params as ScryptParams;
use pkcs8::AlgorithmIdentifierRef;
use pkcs8::EncryptedPrivateKeyInfo;
use pkcs8::PrivateKeyInfo;
use vstd::prelude::*;

use crate::crypto::ed_generate;
use crate::crypto::ed_pub_of;
use crate::crypto::ed_public_from_secret;
use crate::crypto::ed_sign_of;
use crate::crypto::ed_sign_raw;
use crate::crypto::ed_verify_of;
use crate::crypto::ed_verify_raw;
use crate::crypto::pq_generate;
use crate::crypto::pq_pub_of;
use crate::crypto::pq_sign_raw;
use crate::crypto::pq_valid_secret;
use crate::crypto::pq_verify_of;
use crate::crypto::pq_verify_raw;
use crate::crypto::ED_PUBLIC_KEY_LENGTH;
use crate::crypto::ED_SECRET_KEY_LENGTH;
use crate::crypto::ED_SIGNATURE_LENGTH;
use crate::crypto::PQ_PUBLIC_KEY_LENGTH;
use crate::crypto::PQ_SECRET_KEY_LENGTH;

verus! {

/// Dotted object identifier of Ed25519.
pub const ED25519_OID: &'static str = "1.3.101.112";

/// Dotted object identifier of Dilithium 5 with SHA-512, from IBM's
/// networking arc.
pub const DILITHIUM5_OID: &'static str = "1.3.6.1.4.1.2.267.7.8.7";

/// Errors of the key store.
#[derive(Debug, Clone, Copy, PartialEq, Eq, Structural)]
pub enum KeyStoreError {
    /// The operating system's random generator failed.
    RandomFailure,
    /// The key material could not be encoded or encrypted.
    EncryptFailure,
    /// The document is not a well-formed encrypted PKCS#8 file.
    ParseFailure,
    /// Decryption failed; usually a wrong password.
    DecryptFailure,
    /// The embedded algorithm identifier is not the expected one.
    WrongAlgorithm,
    /// The private key has not the scheme's length.
    BadPrivateKeyLength,
    /// The document embeds no public key although the scheme requires one.
    MissingPublicKey,
    /// The embedded public key has not the scheme's length.
    BadPublicKeyLength,
}

/// What decrypting and parsing a PKCS#8 document with a password yields:
/// the dotted algorithm identifier, the private key bytes and the optional
/// public key bytes; `None` when the document does not decrypt or parse.
/// Named after pkcs8's `EncryptedPrivateKeyInfo::decrypt`.
pub uninterp spec fn pkcs8_parse_of(der: Seq<u8>, pwd: Seq<char>) -> Option<
    (Seq<char>, Seq<u8>, Option<Seq<u8>>),
>;

/// The scrypt work factor of the key files: the log base two of the cost
/// parameter, as the scrypt crate recommends it.
pub const SCRYPT_RECOMMENDED_LOG_N: u8 = 17;

/// Relies on pkcs8's `PrivateKeyInfo::encrypt_with_params` with scrypt at
/// the given work factor and AES-256-CBC: a fresh 16-byte salt and a fresh
/// 16-byte initialization vector come from the operating system's random
/// generator on every call, and decrypting the document with the same
/// password yields identifier, private key and public key unchanged.
#[verifier::external_body]
fn pkcs8_encrypt(prk: &[u8], pbk: &[u8], oid: &str, pwd: &str, cost: u8) -> (r: Option<Vec<u8>>)
    requires
        oid@ == ED25519_OID@ || oid@ == DILITHIUM5_OID@,
    ensures
        r matches Some(der) ==> pkcs8_parse_of(der@, pwd@) == Some((oid@, prk@, Some(pbk@))),
{
    let mut salt = [0u8; 16];
    rand::RngCore::try_fill_bytes(&mut rand::rngs::OsRng, &mut salt).ok()?;
    let mut iv = [0u8; 16];
    rand::RngCore::try_fill_bytes(&mut rand::rngs::OsRng, &mut iv).ok()?;
    let sp = ScryptParams::new(cost, 8, 1, 32).ok()?;
    let params = pbes2::Parameters::scrypt_aes256cbc(sp, &salt, &iv).ok()?;
    let info = PrivateKeyInfo {
        algorithm: AlgorithmIdentifierRef { oid: oid.parse().ok()?, parameters: None },
        private_key: prk,
        public_key: Some(pbk),
    };
    Some(info.encrypt_with_params(params, pwd).ok()?.as_bytes().to_vec())
}

/// Relies on pkcs8's `EncryptedPrivateKeyInfo::try_from` and `decrypt`:
/// decrypting and parsing is a function of the document bytes and the
/// password alone.
#[verifier::external_body]
fn pkcs8_decrypt(der: &[u8], pwd: &str) -> (r: Result<
    (String, Vec<u8>, Option<Vec<u8>>),
    KeyStoreError,
>)
    ensures
        match r {
            Ok(t) => pkcs8_parse_of(der@, pwd@) == Some((t.0@, t.1@, t.2.deep_view())),
            Err(e) => pkcs8_parse_of(der@, pwd@) is None && (e == KeyStoreError::ParseFailure || e
                == KeyStoreError::DecryptFailure),
        },
{
    let enc = EncryptedPrivateKeyInfo::try_from(der).map_err(|_| KeyStoreError::ParseFailure)?;
    let doc = enc.decrypt(pwd).map_err(|_| KeyStoreError::DecryptFailure)?;
    let info: PrivateKeyInfo = doc.decode_msg().map_err(|_| KeyStoreError::ParseFailure)?;
    Ok((
        info.algorithm.oid.to_string(),
        info.private_key.to_vec(),
        info.public_key.map(|p| p.to_vec()),
    ))
}

/// Whether the string `oid` equals the expected dotted identifier.
pub(crate) fn oid_matches(oid: &String, expected: &str) -> (r: bool)
    ensures
        r == (oid@ == expected@),
{
    let e: String = expected.to_owned();
    *oid == e
}

/// A classical (Ed25519) key pair: 32-byte secret key and the public key
/// derived from it.
#[derive(Debug, Clone)]
pub struct KeysasClassicKey {
    pub secret: Vec<u8>,
    pub public: Vec<u8>,
}

/// A post-quantum (Dilithium 5) key pair. Both halves are stored: the
/// public key cannot be re-derived cheaply from the secret key.
#[derive(Debug, Clone)]
pub struct KeysasPQKey {
    pub private_key: Vec<u8>,
    pub public_key: Vec<u8>,
}

/// The key pair that loading a classical PKCS#8 document yields: the
/// embedded identifier must be Ed25519's and the private key 32 bytes long;
/// the public key is re-derived from the secret key.
pub open spec fn spec_classic_load(der: Seq<u8>, pwd: Seq<char>) -> Option<(Seq<u8>, Seq<u8>)> {
    match pkcs8_parse_of(der, pwd) {
        Some(t) => if t.0 == ED25519_OID@ && t.1.len() == ED_SECRET_KEY_LENGTH {
            Some((t.1, ed_pub_of(t.1)))
        } else {
            None
        },
        None => None,
    }
}

/// The key pair that loading a post-quantum PKCS#8 document yields: the
/// embedded identifier must be Dilithium 5's, the private key must have the
/// scheme's length, and the embedded public key is required and must have
/// the scheme's length.
pub open spec fn spec_pq_load(der: Seq<u8>, pwd: Seq<char>) -> Option<(Seq<u8>, Seq<u8>)> {
    match pkcs8_parse_of(der, pwd) {
        Some(t) => if t.0 == DILITHIUM5_OID@ && t.1.len() == PQ_SECRET_KEY_LENGTH {
            match t.2 {
                Some(p) => if p.len() == PQ_PUBLIC_KEY_LENGTH {
                    Some((t.1, p))
                } else {
                    None
                },
                None => None,
            }
        } else {
            None
        },
        None => None,
    }
}

impl KeysasClassicKey {
    /// Both halves have Ed25519's lengths.
    pub open spec fn wf(&self) -> bool {
        self.secret@.len() == ED_SECRET_KEY_LENGTH && self.public@.len() == ED_PUBLIC_KEY_LENGTH
    }

    /// The public half belongs to the secret half.
    pub open spec fn bonded(&self) -> bool {
        self.public@ == ed_pub_of(self.secret@)
    }

    /// Generate a fresh classical key pair from the operating system's
    /// random generator.
    pub fn generate() -> (r: Result<KeysasClassicKey, KeyStoreError>)
        ensures
            match r {
                Ok(k) => k.wf() && k.bonded(),
                Err(e) => e == KeyStoreError::RandomFailure,
            },
    {
        match ed_generate() {
            Some(kp) => Ok(KeysasClassicKey { secret: kp.0, public: kp.1 }),
            None => Err(KeyStoreError::RandomFailure),
        }
    }

    /// Load a classical key pair from a password-encrypted PKCS#8 document.
    /// Succeeds exactly when the document decrypts under the password,
    /// carries Ed25519's identifier and a 32-byte private key; the public
    /// key is re-derived from the secret key.
    pub fn load_keys(der: &[u8], pwd: &str) -> (r: Result<KeysasClassicKey, KeyStoreError>)
        ensures
            match spec_classic_load(der@, pwd@) {
                Some(k) => r is Ok && r->Ok_0.secret@ == k.0 && r->Ok_0.public@ == k.1,
                None => r is Err,
            },
            r matches Ok(k) ==> k.wf() && k.bonded(),
    {
        let t = pkcs8_decrypt(der, pwd)?;
        if !oid_matches(&t.0, ED25519_OID) {
            return Err(KeyStoreError::WrongAlgorithm);
        }
        if t.1.len() != ED_SECRET_KEY_LENGTH {
            return Err(KeyStoreError::BadPrivateKeyLength);
        }
        match ed_public_from_secret(t.1.as_slice()) {
            Some(public) => Ok(KeysasClassicKey { secret: t.1, public }),
            None => Err(KeyStoreError::BadPrivateKeyLength),
        }
    }

    /// Encode the key pair as a password-encrypted PKCS#8 document under
    /// Ed25519's identifier, at the recommended scrypt work factor.
    /// Decrypting the document with the same password yields the key
    /// material unchanged.
    pub fn save_keys(&self, pwd: &str) -> (r: Result<Vec<u8>, KeyStoreError>)
        ensures
            r matches Ok(der) ==> pkcs8_parse_of(der@, pwd@) == Some(
                (ED25519_OID@, self.secret@, Some(self.public@)),
            ),
    {
        self.save_keys_with_cost(pwd, SCRYPT_RECOMMENDED_LOG_N)
    }

    /// As `save_keys`, with an explicit scrypt work factor: a provisioning
    /// tool may trade derivation time against brute-force resistance.
    pub fn save_keys_with_cost(&self, pwd: &str, cost: u8) -> (r: Result<Vec<u8>, KeyStoreError>)
        ensures
            r matches Ok(der) ==> pkcs8_parse_of(der@, pwd@) == Some(
                (ED25519_OID@, self.secret@, Some(self.public@)),
            ),
    {
        match pkcs8_encrypt(self.secret.as_slice(), self.public.as_slice(), ED25519_OID, pwd, cost) {
            Some(der) => Ok(der),
            None => Err(KeyStoreError::EncryptFailure),
        }
    }

    /// Sign the SHA-512 prehash of a message with the secret key. The
    /// signature verifies under the derived public key: for a bonded key
    /// pair, `message_verify` accepts it.
    pub fn message_sign(&self, message: &[u8]) -> (r: Result<Vec<u8>, KeyStoreError>)
        ensures
            match r {
                Ok(sig) => {
                    &&& self.secret@.len() == ED_SECRET_KEY_LENGTH
                    &&& sig@ == ed_sign_of(self.secret@, message@)
                    &&& sig@.len() == ED_SIGNATURE_LENGTH
                    &&& ed_verify_of(ed_pub_of(self.secret@), message@, sig@)
                },
                Err(e) => self.secret@.len() != ED_SECRET_KEY_LENGTH && e
                    == KeyStoreError::BadPrivateKeyLength,
            },
    {
        match ed_sign_raw(self.secret.as_slice(), message) {
            Some(sig) => Ok(sig),
            None => Err(KeyStoreError::BadPrivateKeyLength),
        }
    }

    /// Whether the signature is a valid Ed25519 signature of the message's
    /// SHA-512 prehash under this key's public half.
    pub fn message_verify(&self, message: &[u8], signature: &[u8]) -> (r: bool)
        ensures
            r == ed_verify_of(self.public@, message@, signature@),
    {
        ed_verify_raw(self.public.as_slice(), message, signature)
    }
}

impl KeysasPQKey {
    /// Both halves have Dilithium 5's lengths.
    pub open spec fn wf(&self) -> bool {
        self.private_key@.len() == PQ_SECRET_KEY_LENGTH && self.public_key@.len()
            == PQ_PUBLIC_KEY_LENGTH
    }

    /// The public half belongs to the secret half, and the secret half is
    /// one that the scheme's key generation produces.
    pub open spec fn bonded(&self) -> bool {
        self.public_key@ == pq_pub_of(self.private_key@) && pq_valid_secret(self.private_key@)
    }

    /// Generate a fresh post-quantum key pair.
    pub fn generate() -> (r: KeysasPQKey)
        ensures
            r.wf() && r.bonded(),
    {
        let kp = pq_generate();
        KeysasPQKey { private_key: kp.0, public_key: kp.1 }
    }

    /// Load a post-quantum key pair from a password-encrypted PKCS#8
    /// document. Succeeds exactly when the document decrypts under the
    /// password, carries Dilithium 5's identifier, a private key of the
    /// scheme's length, and an embedded public key of the scheme's length.
    pub fn load_keys(der: &[u8], pwd: &str) -> (r: Result<KeysasPQKey, KeyStoreError>)
        ensures
            match spec_pq_load(der@, pwd@) {
                Some(k) => r is Ok && r->Ok_0.private_key@ == k.0 && r->Ok_0.public_key@ == k.1,
                None => r is Err,
            },
            r matches Ok(k) ==> k.wf(),
    {
        let t = pkcs8_decrypt(der, pwd)?;
        if !oid_matches(&t.0, DILITHIUM5_OID) {
            return Err(KeyStoreError::WrongAlgorithm);
        }
        if t.1.len() != PQ_SECRET_KEY_LENGTH {
            return Err(KeyStoreError::BadPrivateKeyLength);
        }
        match t.2 {
            Some(public_key) => {
                if public_key.len() != PQ_PUBLIC_KEY_LENGTH {
                    return Err(KeyStoreError::BadPublicKeyLength);
                }
                Ok(KeysasPQKey { private_key: t.1, public_key })
            },
            None => Err(KeyStoreError::MissingPublicKey),
        }
    }

    /// Encode the key pair as a password-encrypted PKCS#8 document under
    /// Dilithium 5's identifier, public key embedded, at the recommended
    /// scrypt work factor. Decrypting the document with the same password
    /// yields the key material unchanged.
    pub fn save_keys(&self, pwd: &str) -> (r: Result<Vec<u8>, KeyStoreError>)
        ensures
            r matches Ok(der) ==> pkcs8_parse_of(der@, pwd@) == Some(
                (DILITHIUM5_OID@, self.private_key@, Some(self.public_key@)),
            ),
    {
        self.save_keys_with_cost(pwd, SCRYPT_RECOMMENDED_LOG_N)
    }

    /// As `save_keys`, with an explicit scrypt work factor.
    pub fn save_keys_with_cost(&self, pwd: &str, cost: u8) -> (r: Result<Vec<u8>, KeyStoreError>)
        ensures
            r matches Ok(der) ==> pkcs8_parse_of(der@, pwd@) == Some(
                (DILITHIUM5_OID@, self.private_key@, Some(self.public_key@)),
            ),
    {
        match pkcs8_encrypt(self.private_key.as_slice(), self.public_key.as_slice(), DILITHIUM5_OID, pwd, cost) {
            Some(der) => Ok(der),
            None => Err(KeyStoreError::EncryptFailure),
        }
    }

    /// Sign a raw message with the secret key, under the scheme's own
    /// domain separation. For a bonded key pair the signature verifies
    /// under this key's public half: `message_verify` accepts it.
    pub fn message_sign(&self, message: &[u8]) -> (r: Result<Vec<u8>, KeyStoreError>)
        ensures
            match r {
                Ok(sig) => {
                    &&& self.private_key@.len() == PQ_SECRET_KEY_LENGTH
                    &&& sig@.len() == crate::codec::PQ_SIGNATURE_LENGTH
                    &&& (self.bonded() ==> pq_verify_of(self.public_key@, message@, sig@))
                },
                Err(e) => self.private_key@.len() != PQ_SECRET_KEY_LENGTH && e
                    == KeyStoreError::BadPrivateKeyLength,
            },
    {
        match pq_sign_raw(self.private_key.as_slice(), message) {
            Some(sig) => Ok(sig),
            None => Err(KeyStoreError::BadPrivateKeyLength),
        }
    }

    /// Whether the signature is a valid Dilithium 5 signature of the
    /// message under this key's public half.
    pub fn message_verify(&self, message: &[u8], signature: &[u8]) -> (r: bool)
        ensures
            r == pq_verify_of(self.public_key@, message@, signature@),
    {
        pq_verify_raw(self.public_key.as_slice(), message, signature)
    }
}

/// Law: a saved classical key pair loads back unchanged. Whatever document
/// `save_keys` produced for a bonded key pair under a password, loading it
/// with the same password yields byte-identical key material.
pub proof fn lemma_classic_store_round_trip(k: KeysasClassicKey, der: Seq<u8>, pwd: Seq<char>)
    requires
        k.wf(),
        k.bonded(),
        pkcs8_parse_of(der, pwd) == Some((ED25519_OID@, k.secret@, Some(k.public@))),
    ensures
        spec_classic_load(der, pwd) == Some((k.secret@, k.public@)),
{
}

/// Law: a saved post-quantum key pair loads back unchanged. Whatever
/// document `save_keys` produced for a well-formed key pair under a
/// password, loading it with the same password yields byte-identical key
/// material.
pub proof fn lemma_pq_store_round_trip(k: KeysasPQKey, der: Seq<u8>, pwd: Seq<char>)
    requires
        k.wf(),
        pkcs8_parse_of(der, pwd) == Some((DILITHIUM5_OID@, k.private_key@, Some(k.public_key@))),
    ensures
        spec_pq_load(der, pwd) == Some((k.private_key@, k.public_key@)),
{
}

} // verus!
