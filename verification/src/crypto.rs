//! Cryptographic primitives used by the token: SHA-256 context hashing and
//! Ed25519 signing and verification, supplied by the `ring` crate behind
//! trusted wrappers. The service loads one signing key at startup and uses
//! it for every issuance; verification uses the paired public key.

use vstd::prelude::*;

verus! {

/// The SHA-256 digest of `data`: a function of the input bytes alone.
pub uninterp spec fn sha256_of(data: Seq<u8>) -> Seq<u8>;

/// The Ed25519 public key embedded in a PKCS#8 v2 document.
pub uninterp spec fn ed25519_pub_of(pkcs8: Seq<u8>) -> Seq<u8>;

/// The Ed25519 signature of `msg` under the key pair held in `pkcs8`:
/// Ed25519 signing is deterministic in the key and the message.
pub uninterp spec fn ed25519_sig_of(pkcs8: Seq<u8>, msg: Seq<u8>) -> Seq<u8>;

/// Whether Ed25519 verification accepts `sig` as a signature of `msg`
/// under `public_key`.
pub uninterp spec fn ed25519_verifies(public_key: Seq<u8>, msg: Seq<u8>, sig: Seq<u8>) -> bool;

#[derive(Clone, Copy, Debug, PartialEq, Eq, Structural)]
pub enum CryptoError {
    /// The supplied key material was not an acceptable PKCS#8 v2 document.
    KeyRejected,
    /// The system random generator failed.
    RandomFailed,
}

/// Relies on `ring::digest::digest` with the SHA-256 algorithm: the digest
/// is 32 bytes and depends on the input bytes alone.
#[verifier::external_body]
pub(crate) fn sha256(data: &[u8]) -> (r: Vec<u8>)
    ensures
        r@ == sha256_of(data@),
        r@.len() == 32,
{
    ring::digest::digest(&ring::digest::SHA256, data).as_ref().to_vec()
}

#[verifier::external_type_specification]
#[verifier::external_body]
pub struct ExEd25519KeyPair(ring::signature::Ed25519KeyPair);

/// The service's Ed25519 signing key, loaded once at startup and used for
/// every issuance. The parsed key pair is kept beside the PKCS#8 document
/// it was parsed from and the 32-byte public key that document embeds.
pub struct Signer {
    pkcs8: Vec<u8>,
    key: ring::signature::Ed25519KeyPair,
    public_key: Vec<u8>,
}

impl Signer {
    /// The PKCS#8 key material this signer was built from.
    pub closed spec fn material(&self) -> Seq<u8> {
        self.pkcs8@
    }

    /// The public key paired with this signer's key material.
    pub closed spec fn spec_public_key(&self) -> Seq<u8> {
        self.public_key@
    }

    /// A signer is well formed when its stored public key is the one its
    /// key material determines.
    pub open spec fn wf(&self) -> bool {
        &&& self.spec_public_key() == ed25519_pub_of(self.material())
        &&& self.spec_public_key().len() == 32
    }

    /// Relies on `ring::signature::Ed25519KeyPair::from_pkcs8`, which parses
    /// an unencrypted PKCS#8 v2 document, checks that the embedded public
    /// and private keys agree, and rejects anything else; the key pair's
    /// public key is the document's 32-byte public key.
    #[verifier::external_body]
    pub fn from_pkcs8(pkcs8: Vec<u8>) -> (r: Result<Signer, CryptoError>)
        ensures
            match r {
                Ok(s) => s.material() == pkcs8@ && s.wf(),
                Err(e) => e == CryptoError::KeyRejected,
            },
    {
        match ring::signature::Ed25519KeyPair::from_pkcs8(&pkcs8) {
            Ok(key) => {
                let public_key = ring::signature::KeyPair::public_key(&key).as_ref().to_vec();
                Ok(Signer { pkcs8, key, public_key })
            },
            Err(_) => Err(CryptoError::KeyRejected),
        }
    }

    /// The 32-byte public key against which this signer's signatures verify.
    pub fn public_key(&self) -> (r: &Vec<u8>)
        ensures
            r@ == self.spec_public_key(),
    {
        &self.public_key
    }

    /// Relies on `ring::signature::Ed25519KeyPair::sign`: Ed25519 signing is
    /// a deterministic function of the key pair and the message, the
    /// signature is 64 bytes, and it verifies under the key pair's public
    /// key. The stored key pair was parsed from the stored PKCS#8 document.
    #[verifier::external_body]
    pub(crate) fn sign(&self, msg: &Vec<u8>) -> (sig: Vec<u8>)
        ensures
            sig@ == ed25519_sig_of(self.material(), msg@),
            sig@.len() == 64,
            ed25519_verifies(ed25519_pub_of(self.material()), msg@, sig@),
    {
        self.key.sign(msg).as_ref().to_vec()
    }
}

/// Relies on `ring::signature::UnparsedPublicKey::verify` with the Ed25519
/// algorithm: acceptance is a function of the public key, message and
/// signature bytes alone.
#[verifier::external_body]
pub(crate) fn ed25519_verify(public_key: &[u8], msg: &Vec<u8>, sig: &[u8]) -> (r: bool)
    ensures
        r == ed25519_verifies(public_key@, msg@, sig@),
{
    let key = ring::signature::UnparsedPublicKey::new(&ring::signature::ED25519, public_key);
    key.verify(msg, sig).is_ok()
}

/// Relies on `ring::signature::Ed25519KeyPair::generate_pkcs8` with the
/// system random generator: the result is fresh random key material, so
/// nothing is stated of its value.
#[verifier::external_body]
pub fn generate_key_material() -> (r: Result<Vec<u8>, CryptoError>)
{
    let rng = ring::rand::SystemRandom::new();
    match ring::signature::Ed25519KeyPair::generate_pkcs8(&rng) {
        Ok(doc) => Ok(doc.as_ref().to_vec()),
        Err(_) => Err(CryptoError::RandomFailed),
    }
}

/// Relies on `ring::rand::SecureRandom::fill` on the system random
/// generator: it fills the 16-byte buffer with random bytes, so nothing is
/// stated of their values.
#[verifier::external_body]
pub fn random_session_id() -> (r: Result<Vec<u8>, CryptoError>)
    ensures
        match r {
            Ok(id) => id@.len() == 16,
            Err(e) => e == CryptoError::RandomFailed,
        },
{
    let rng = ring::rand::SystemRandom::new();
    let mut id = [0u8; 16];
    match ring::rand::SecureRandom::fill(&rng, &mut id) {
        Ok(()) => Ok(id.to_vec()),
        Err(_) => Err(CryptoError::RandomFailed),
    }
}

} // verus!
