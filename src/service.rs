//! The request/response facade: liveness, generate, export and import, with
//! identities carried between calls in their canonical encoding.

use vstd::prelude::*;
use crate::blob::{
    blob_nonce, blob_salt, export, import, spec_export, spec_import, ExportError, ImportError,
    DEFAULT_ITERATIONS, SALT_LEN,
};
use crate::suite::NONCE_LEN;
use crate::codec::{decode, encode, encoding, lemma_decode_encoding, spec_decode, CodecError};
use crate::identity::{GenerateError, Identity, MAX_CREDENTIAL_LEN};
use crate::suite::spec_resolve;

verus! {

/// The message of every liveness reply.
pub const PING_MESSAGE: &'static str = "Pong from Rust Crypto Engine!";

/// Reply to a liveness check.
pub struct PingResponse {
    pub message: String,
    pub timestamp: i64,
}

/// The typed failures of the service.
#[derive(Clone, Copy, Debug, PartialEq, Eq, Structural)]
pub enum ServiceError {
    UnsupportedSuite,
    NotFound,
    AuthenticationFailed,
    MalformedInput,
    UnsupportedFormatVersion,
    /// The operating system's entropy source could not be read.
    Unavailable,
}

/// The service failure that reports an import failure.
pub open spec fn spec_import_failure(e: ImportError) -> ServiceError {
    match e {
        ImportError::UnsupportedFormatVersion => ServiceError::UnsupportedFormatVersion,
        ImportError::UnsupportedSuite => ServiceError::UnsupportedSuite,
        ImportError::AuthenticationFailed => ServiceError::AuthenticationFailed,
        ImportError::MalformedEncoding => ServiceError::MalformedInput,
    }
}

/// Maps an import failure to the service failure that reports it.
pub fn import_failure(e: ImportError) -> (r: ServiceError)
    ensures
        r == spec_import_failure(e),
{
    match e {
        ImportError::UnsupportedFormatVersion => ServiceError::UnsupportedFormatVersion,
        ImportError::UnsupportedSuite => ServiceError::UnsupportedSuite,
        ImportError::AuthenticationFailed => ServiceError::AuthenticationFailed,
        ImportError::MalformedEncoding => ServiceError::MalformedInput,
    }
}

/// The identity service. It holds no state: every call stands alone.
#[derive(Clone, Copy, Debug, Default)]
pub struct MyMlsService {}

impl MyMlsService {
    /// Liveness check: a fixed message and the timestamp the caller supplies.
    pub fn ping(&self, timestamp: i64) -> (r: PingResponse)
        ensures
            r.message@ == PING_MESSAGE@,
            r.timestamp == timestamp,
    {
        PingResponse { message: PING_MESSAGE.to_owned(), timestamp }
    }

    /// Generates an identity for the credential under the named suite and
    /// returns its canonical encoding.
    pub fn generate_identity(&self, suite_id: u16, credential: Vec<u8>) -> (r: Result<
        Vec<u8>,
        ServiceError,
    >)
        requires
            credential@.len() <= MAX_CREDENTIAL_LEN,
        ensures
            spec_resolve(suite_id) is None <==> r == Err::<Vec<u8>, ServiceError>(
                ServiceError::UnsupportedSuite,
            ),
            r matches Err(e) ==> e == ServiceError::UnsupportedSuite || e
                == ServiceError::Unavailable,
            r matches Ok(b) ==> spec_decode(b@) matches Ok(v) && v.credential == credential@
                && spec_resolve(suite_id) == Some(v.suite) && b@ == encoding(v),
    {
        match Identity::generate(suite_id, credential) {
            Ok(mut identity) => {
                let b = encode(&identity);
                proof {
                    lemma_decode_encoding(identity@);
                }
                identity.wipe();
                Ok(b)
            },
            Err(GenerateError::UnsupportedSuite) => Err(ServiceError::UnsupportedSuite),
            Err(GenerateError::EntropyUnavailable) => Err(ServiceError::Unavailable),
        }
    }

    /// Exports the identity that `identity` encodes under the secret.
    pub fn export_identity(&self, identity: &[u8], secret: &[u8]) -> (r: Result<
        Vec<u8>,
        ServiceError,
    >)
        ensures
            match spec_decode(identity@) {
                Err(CodecError::UnsupportedSuite) => r == Err::<Vec<u8>, ServiceError>(
                    ServiceError::UnsupportedSuite,
                ),
                Err(_) => r == Err::<Vec<u8>, ServiceError>(ServiceError::NotFound),
                Ok(v) => match r {
                    Ok(b) => {
                        &&& spec_import(b@, secret@) == Ok::<_, ImportError>(v)
                        &&& b@ == spec_export(
                            v,
                            secret@,
                            blob_salt(b@),
                            DEFAULT_ITERATIONS,
                            blob_nonce(b@),
                        )
                        &&& blob_salt(b@).len() == SALT_LEN
                        &&& blob_nonce(b@).len() == NONCE_LEN
                    },
                    Err(e) => e == ServiceError::Unavailable,
                },
            },
    {
        let mut id = match decode(identity) {
            Ok(i) => i,
            Err(CodecError::UnsupportedSuite) => return Err(ServiceError::UnsupportedSuite),
            Err(_) => return Err(ServiceError::NotFound),
        };
        let exported = export(&id, secret);
        id.wipe();
        match exported {
            Ok(b) => Ok(b),
            Err(ExportError::EntropyUnavailable) => Err(ServiceError::Unavailable),
        }
    }

    /// Imports a blob under the secret and returns the identity's canonical encoding.
    pub fn import_identity(&self, blob: &[u8], secret: &[u8]) -> (r: Result<Vec<u8>, ServiceError>)
        ensures
            match spec_import(blob@, secret@) {
                Ok(v) => r matches Ok(b) && b@ == encoding(v),
                Err(e) => r == Err::<Vec<u8>, ServiceError>(spec_import_failure(e)),
            },
    {
        match import(blob, secret) {
            Ok(mut i) => {
                let b = encode(&i);
                i.wipe();
                Ok(b)
            },
            Err(e) => Err(import_failure(e)),
        }
    }
}

} // verus!
