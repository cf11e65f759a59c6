//! The fixed registry of supported cipher suites.

use vstd::prelude::*;

verus! {

/// Wire identifier of MLS_128_DHKEMX25519_CHACHA20POLY1305_SHA256_Ed25519.
pub const SUITE_ID_ED25519_CHACHA20POLY1305_SHA256: u16 = 3;

/// Length in bytes of a signature private key and of a signature public key.
pub const SIGNATURE_KEY_LEN: usize = 32;

/// Length in bytes of a symmetric wrapping key.
pub const AEAD_KEY_LEN: usize = 32;

/// Length in bytes of an AEAD nonce.
pub const NONCE_LEN: usize = 12;

/// Length in bytes of an AEAD authentication tag.
pub const TAG_LEN: usize = 16;

#[derive(Clone, Copy, Debug, PartialEq, Eq, Structural)]
pub enum SignatureAlgorithm {
    Ed25519,
}

#[derive(Clone, Copy, Debug, PartialEq, Eq, Structural)]
pub enum AeadAlgorithm {
    ChaCha20Poly1305,
}

#[derive(Clone, Copy, Debug, PartialEq, Eq, Structural)]
pub enum KdfAlgorithm {
    Pbkdf2HmacSha256,
}

#[derive(Clone, Copy, Debug, PartialEq, Eq, Structural)]
pub enum HashAlgorithm {
    Sha256,
}

/// A supported cipher suite: a fixed bundle of signature, AEAD, KDF and hash algorithms.
#[derive(Clone, Copy, Debug, PartialEq, Eq, Structural)]
pub enum CipherSuite {
    Ed25519ChaCha20Poly1305Sha256,
}

impl CipherSuite {
    pub open spec fn spec_id(self) -> u16 {
        match self {
            CipherSuite::Ed25519ChaCha20Poly1305Sha256 => SUITE_ID_ED25519_CHACHA20POLY1305_SHA256,
        }
    }

    /// The suite's wire identifier.
    pub fn id(self) -> (r: u16)
        ensures
            r == self.spec_id(),
    {
        match self {
            CipherSuite::Ed25519ChaCha20Poly1305Sha256 => SUITE_ID_ED25519_CHACHA20POLY1305_SHA256,
        }
    }

    pub fn signature_algorithm(self) -> (r: SignatureAlgorithm)
        ensures
            r == SignatureAlgorithm::Ed25519,
    {
        match self {
            CipherSuite::Ed25519ChaCha20Poly1305Sha256 => SignatureAlgorithm::Ed25519,
        }
    }

    pub fn aead_algorithm(self) -> (r: AeadAlgorithm)
        ensures
            r == AeadAlgorithm::ChaCha20Poly1305,
    {
        match self {
            CipherSuite::Ed25519ChaCha20Poly1305Sha256 => AeadAlgorithm::ChaCha20Poly1305,
        }
    }

    pub fn kdf_algorithm(self) -> (r: KdfAlgorithm)
        ensures
            r == KdfAlgorithm::Pbkdf2HmacSha256,
    {
        match self {
            CipherSuite::Ed25519ChaCha20Poly1305Sha256 => KdfAlgorithm::Pbkdf2HmacSha256,
        }
    }

    pub fn hash_algorithm(self) -> (r: HashAlgorithm)
        ensures
            r == HashAlgorithm::Sha256,
    {
        match self {
            CipherSuite::Ed25519ChaCha20Poly1305Sha256 => HashAlgorithm::Sha256,
        }
    }
}

/// The registry: which suite, if any, a wire identifier names.
pub open spec fn spec_resolve(id: u16) -> Option<CipherSuite> {
    if id == SUITE_ID_ED25519_CHACHA20POLY1305_SHA256 {
        Some(CipherSuite::Ed25519ChaCha20Poly1305Sha256)
    } else {
        None
    }
}

/// Looks up a cipher suite by its wire identifier.
pub fn resolve(id: u16) -> (r: Option<CipherSuite>)
    ensures
        r == spec_resolve(id),
{
    if id == SUITE_ID_ED25519_CHACHA20POLY1305_SHA256 {
        Some(CipherSuite::Ed25519ChaCha20Poly1305Sha256)
    } else {
        None
    }
}

/// Every suite resolves from its own identifier.
pub proof fn lemma_resolve_id(s: CipherSuite)
    ensures
        spec_resolve(s.spec_id()) == Some(s),
{
}

} // verus!
