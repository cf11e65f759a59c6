//! The cryptographic primitives the engine relies on, each a thin call into its
//! crate. The deterministic ones (key derivation, public key, seal, open) have
//! their results named here, with beside each name only the facts the crate's
//! source shows; the entropy source and wiping have no name, only what holds of
//! every outcome.

use vstd::prelude::*;
use chacha20poly1305::aead::{Aead, KeyInit, Payload};

verus! {

/// Exclusive bound on the plaintext length that ChaCha20-Poly1305 accepts
/// (64-byte blocks, a 32-bit block counter).
pub const AEAD_MESSAGE_LIMIT: u64 = 274877906880;

/// The Ed25519 public key derived from a 32-byte secret key.
pub uninterp spec fn ed25519_public_of(secret_key: Seq<u8>) -> Seq<u8>;

/// The 32-byte PBKDF2-HMAC-SHA256 output for a password, a salt and a round count.
pub uninterp spec fn pbkdf2_sha256_of(password: Seq<u8>, salt: Seq<u8>, rounds: u32) -> Seq<u8>;

/// ChaCha20-Poly1305 ciphertext followed by its tag, for a key, nonce,
/// associated data and plaintext.
pub uninterp spec fn chacha20poly1305_seal_of(
    key: Seq<u8>,
    nonce: Seq<u8>,
    aad: Seq<u8>,
    msg: Seq<u8>,
) -> Seq<u8>;

/// The outcome of ChaCha20-Poly1305 decryption: the plaintext where the tag
/// verifies, nothing otherwise.
pub uninterp spec fn chacha20poly1305_open_of(
    key: Seq<u8>,
    nonce: Seq<u8>,
    aad: Seq<u8>,
    ct: Seq<u8>,
) -> Option<Seq<u8>>;

/// Relies on ed25519_dalek::SigningKey::from_bytes and verifying_key: the
/// 32-byte public key of a 32-byte secret key.
#[verifier::external_body]
pub(crate) fn ed25519_public_key(secret_key: &[u8]) -> (r: Vec<u8>)
    requires
        secret_key@.len() == 32,
    ensures
        r@ == ed25519_public_of(secret_key@),
        r@.len() == 32,
{
    let bytes: [u8; 32] = secret_key.try_into().unwrap();
    ed25519_dalek::SigningKey::from_bytes(&bytes).verifying_key().to_bytes().to_vec()
}

/// Relies on pbkdf2::pbkdf2_hmac with sha2::Sha256, writing a 32-byte key; it
/// neither fails nor panics for any password, salt or round count.
#[verifier::external_body]
pub(crate) fn pbkdf2_sha256(password: &[u8], salt: &[u8], rounds: u32) -> (r: Vec<u8>)
    ensures
        r@ == pbkdf2_sha256_of(password@, salt@, rounds),
        r@.len() == 32,
{
    let mut key = [0u8; 32];
    pbkdf2::pbkdf2_hmac::<sha2::Sha256>(password, salt, rounds, &mut key);
    key.to_vec()
}

/// Relies on chacha20poly1305::ChaCha20Poly1305 through aead::Aead::encrypt:
/// it fails only on a message of AEAD_MESSAGE_LIMIT bytes or more, appends a
/// 16-byte tag, and decrypting its output with the same key, nonce and
/// associated data gives the message back.
#[verifier::external_body]
pub(crate) fn chacha20poly1305_seal(key: &[u8], nonce: &[u8], aad: &[u8], msg: &[u8]) -> (r: Vec<u8>)
    requires
        key@.len() == 32,
        nonce@.len() == 12,
        msg@.len() < AEAD_MESSAGE_LIMIT,
    ensures
        r@ == chacha20poly1305_seal_of(key@, nonce@, aad@, msg@),
        r@.len() == msg@.len() + 16,
        chacha20poly1305_open_of(key@, nonce@, aad@, r@) == Some(msg@),
{
    let cipher = chacha20poly1305::ChaCha20Poly1305::new(chacha20poly1305::Key::from_slice(key));
    cipher.encrypt(chacha20poly1305::Nonce::from_slice(nonce), Payload { msg, aad }).unwrap()
}

/// Relies on chacha20poly1305::ChaCha20Poly1305 through aead::Aead::decrypt.
/// It checks the tag over the associated data and the ciphertext (in constant
/// time) before it applies the keystream; so where it succeeds, encrypting the
/// plaintext again with the same key, nonce and associated data gives exactly
/// the input back.
#[verifier::external_body]
pub(crate) fn chacha20poly1305_open(key: &[u8], nonce: &[u8], aad: &[u8], ct: &[u8]) -> (r: Option<Vec<u8>>)
    requires
        key@.len() == 32,
        nonce@.len() == 12,
    ensures
        match r {
            Some(m) => chacha20poly1305_open_of(key@, nonce@, aad@, ct@) == Some(m@),
            None => chacha20poly1305_open_of(key@, nonce@, aad@, ct@) is None,
        },
        r matches Some(m) ==> chacha20poly1305_seal_of(key@, nonce@, aad@, m@) == ct@,
{
    let cipher = chacha20poly1305::ChaCha20Poly1305::new(chacha20poly1305::Key::from_slice(key));
    cipher.decrypt(chacha20poly1305::Nonce::from_slice(nonce), Payload { msg: ct, aad }).ok()
}

/// Relies on zeroize::Zeroize for Vec<u8>: overwrites the elements and the
/// spare capacity with zeros, then clears the vector.
#[verifier::external_body]
pub(crate) fn wipe(v: &mut Vec<u8>)
    ensures
        final(v)@ == Seq::<u8>::empty(),
{
    zeroize::Zeroize::zeroize(v)
}

/// Relies on getrandom::getrandom: fills the buffer from the operating
/// system's entropy source, or reports that it could not.
#[verifier::external_body]
pub(crate) fn random_bytes(len: usize) -> (r: Option<Vec<u8>>)
    ensures
        r matches Some(v) ==> v@.len() == len,
{
    let mut buf = vec![0u8; len];
    match getrandom::getrandom(&mut buf) {
        Ok(()) => Some(buf),
        Err(_) => None,
    }
}

} // verus!
