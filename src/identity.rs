//! Identities: a signature key pair bound to a credential under a cipher suite.

use vstd::prelude::*;
use crate::primitives::{ed25519_public_key, ed25519_public_of, random_bytes, wipe};
use crate::suite::{resolve, spec_resolve, CipherSuite, SIGNATURE_KEY_LEN};

verus! {

/// Largest credential, in bytes, that the canonical encoding can carry.
pub const MAX_CREDENTIAL_LEN: u64 = 4294967295;

/// A participant's long-term identity.
pub struct Identity {
    pub suite: CipherSuite,
    pub credential: Vec<u8>,
    pub public_key: Vec<u8>,
    pub private_key: Vec<u8>,
}

/// The mathematical value of an identity.
pub ghost struct IdentityView {
    pub suite: CipherSuite,
    pub credential: Seq<u8>,
    pub public_key: Seq<u8>,
    pub private_key: Seq<u8>,
}

impl IdentityView {
    /// A credential the encoding can carry, and a matching Ed25519 key pair.
    pub open spec fn wf(self) -> bool {
        &&& self.credential.len() <= MAX_CREDENTIAL_LEN
        &&& self.private_key.len() == SIGNATURE_KEY_LEN
        &&& self.public_key == ed25519_public_of(self.private_key)
        &&& self.public_key.len() == SIGNATURE_KEY_LEN
    }
}

impl View for Identity {
    type V = IdentityView;

    open spec fn view(&self) -> IdentityView {
        IdentityView {
            suite: self.suite,
            credential: self.credential@,
            public_key: self.public_key@,
            private_key: self.private_key@,
        }
    }
}

#[derive(Clone, Copy, Debug, PartialEq, Eq, Structural)]
pub enum GenerateError {
    /// The suite identifier names no supported suite.
    UnsupportedSuite,
    /// The operating system's entropy source could not be read.
    EntropyUnavailable,
}

impl Identity {
    /// Binds a credential to the key pair of the given 32-byte private key.
    pub fn from_private_key(suite: CipherSuite, credential: Vec<u8>, private_key: Vec<u8>) -> (r:
        Identity)
        requires
            credential@.len() <= MAX_CREDENTIAL_LEN,
            private_key@.len() == SIGNATURE_KEY_LEN,
        ensures
            r@.wf(),
            r@.suite == suite,
            r@.credential == credential@,
            r@.private_key == private_key@,
    {
        let public_key = ed25519_public_key(private_key.as_slice());
        Identity { suite, credential, public_key, private_key }
    }

    /// Draws a fresh key pair from the operating system's entropy source and
    /// binds the credential, unmodified, to it under the named suite.
    pub fn generate(suite_id: u16, credential: Vec<u8>) -> (r: Result<Identity, GenerateError>)
        requires
            credential@.len() <= MAX_CREDENTIAL_LEN,
        ensures
            spec_resolve(suite_id) is None <==> r == Err::<Identity, GenerateError>(
                GenerateError::UnsupportedSuite,
            ),
            r matches Ok(i) ==> {
                &&& i@.wf()
                &&& spec_resolve(suite_id) == Some(i@.suite)
                &&& i@.credential == credential@
            },
    {
        let suite = match resolve(suite_id) {
            Some(s) => s,
            None => return Err(GenerateError::UnsupportedSuite),
        };
        match random_bytes(SIGNATURE_KEY_LEN) {
            Some(private_key) => Ok(Identity::from_private_key(suite, credential, private_key)),
            None => Err(GenerateError::EntropyUnavailable),
        }
    }

    /// Overwrites the private key with zeros and empties it.
    pub fn wipe(&mut self)
        ensures
            final(self).private_key@ == Seq::<u8>::empty(),
            final(self).suite == old(self).suite,
            final(self).credential@ == old(self).credential@,
            final(self).public_key@ == old(self).public_key@,
    {
        wipe(&mut self.private_key);
    }

    /// The credential bytes.
    pub fn credential(&self) -> (r: &[u8])
        ensures
            r@ == self.credential@,
    {
        self.credential.as_slice()
    }

    /// The signature public key bytes.
    pub fn public_key(&self) -> (r: &[u8])
        ensures
            r@ == self.public_key@,
    {
        self.public_key.as_slice()
    }

    /// The cipher suite.
    pub fn suite(&self) -> (r: CipherSuite)
        ensures
            r == self.suite,
    {
        self.suite
    }
}

} // verus!
