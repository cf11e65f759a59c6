//! Export and import of identities as self-describing, authenticated and
//! encrypted blobs:
//! `[format_version:1][suite_id:2][salt_len:1][salt][iterations:4][nonce:12][ciphertext+tag]`.
//! The header (everything before the ciphertext) is the associated data of
//! the encryption, so that a change to it invalidates the tag.

use vstd::prelude::*;
use crate::codec::{
    append_range, be16_bytes, be16_value, be32_bytes, be32_value, decode, encode, encoding,
    lemma_be16, lemma_be16_inverse, lemma_be32, lemma_be32_inverse, lemma_decode_encoding,
    lemma_encoding_of_decode, push_be16, push_be32, read_be16, read_be32, spec_decode,
};
use crate::identity::{Identity, IdentityView};
use crate::primitives::{
    chacha20poly1305_open, chacha20poly1305_open_of, chacha20poly1305_seal,
    chacha20poly1305_seal_of, pbkdf2_sha256, pbkdf2_sha256_of, random_bytes, wipe,
};
use crate::suite::{resolve, spec_resolve, CipherSuite, NONCE_LEN, TAG_LEN};

verus! {

/// Version byte that opens every blob.
pub const FORMAT_VERSION: u8 = 1;

/// Length of the salt that a fresh export draws.
pub const SALT_LEN: usize = 16;

/// Largest salt a blob can announce.
pub const MAX_SALT_LEN: usize = 255;

/// PBKDF2 round count of a fresh export.
pub const DEFAULT_ITERATIONS: u32 = 100000;

/// Largest PBKDF2 round count that import accepts, bounding its work; a blob
/// announcing more fails authentication.
pub const MAX_ITERATIONS: u32 = 10000000;

#[derive(Clone, Copy, Debug, PartialEq, Eq, Structural)]
pub enum ImportError {
    /// The blob's format version is not the one supported.
    UnsupportedFormatVersion,
    /// The blob's suite identifier names no supported suite.
    UnsupportedSuite,
    /// The blob cannot be authenticated under the secret: its header overruns
    /// the blob or announces a round count out of range, its tag does not
    /// verify, or what the tag protects is not an identity of the blob's suite.
    /// These causes are deliberately not told apart.
    AuthenticationFailed,
    /// The blob is too short to hold a format version and a suite identifier.
    MalformedEncoding,
}

#[derive(Clone, Copy, Debug, PartialEq, Eq, Structural)]
pub enum ExportError {
    /// The operating system's entropy source could not be read.
    EntropyUnavailable,
}

/// The header of a blob: everything before the ciphertext.
pub open spec fn blob_header(suite: CipherSuite, salt: Seq<u8>, iterations: u32, nonce: Seq<u8>) -> Seq<
    u8,
> {
    seq![FORMAT_VERSION] + be16_bytes(suite.spec_id()) + seq![salt.len() as u8] + salt + be32_bytes(
        iterations,
    ) + nonce
}

/// The blob that exporting an identity gives for a secret, a salt, a round count and a nonce.
pub open spec fn spec_export(
    v: IdentityView,
    secret: Seq<u8>,
    salt: Seq<u8>,
    iterations: u32,
    nonce: Seq<u8>,
) -> Seq<u8> {
    let header = blob_header(v.suite, salt, iterations, nonce);
    header + chacha20poly1305_seal_of(
        pbkdf2_sha256_of(secret, salt, iterations),
        nonce,
        header,
        encoding(v),
    )
}

/// Length of the header of a blob, as its salt length byte gives it.
pub open spec fn blob_header_len(b: Seq<u8>) -> int {
    20 + b[3] as int
}

pub open spec fn blob_salt(b: Seq<u8>) -> Seq<u8> {
    b.subrange(4, 4 + b[3] as int)
}

pub open spec fn blob_iterations(b: Seq<u8>) -> u32 {
    be32_value(b.subrange(4 + b[3] as int, 8 + b[3] as int))
}

pub open spec fn blob_nonce(b: Seq<u8>) -> Seq<u8> {
    b.subrange(8 + b[3] as int, 20 + b[3] as int)
}

/// What importing a byte sequence under a secret yields.
pub open spec fn spec_import(b: Seq<u8>, secret: Seq<u8>) -> Result<IdentityView, ImportError> {
    if b.len() < 1 {
        Err(ImportError::MalformedEncoding)
    } else if b[0] != FORMAT_VERSION {
        Err(ImportError::UnsupportedFormatVersion)
    } else if b.len() < 3 {
        Err(ImportError::MalformedEncoding)
    } else {
        match spec_resolve(be16_value(b.subrange(1, 3))) {
            None => Err(ImportError::UnsupportedSuite),
            Some(suite) => {
                if b.len() < 4 || b.len() < blob_header_len(b) + 16 {
                    Err(ImportError::AuthenticationFailed)
                } else if blob_iterations(b) < 1 || blob_iterations(b) > MAX_ITERATIONS {
                    Err(ImportError::AuthenticationFailed)
                } else {
                    let key = pbkdf2_sha256_of(secret, blob_salt(b), blob_iterations(b));
                    let header = b.take(blob_header_len(b));
                    let ct = b.skip(blob_header_len(b));
                    match chacha20poly1305_open_of(key, blob_nonce(b), header, ct) {
                        None => Err(ImportError::AuthenticationFailed),
                        Some(p) => match spec_decode(p) {
                            Ok(v) => if v.suite == suite {
                                Ok(v)
                            } else {
                                Err(ImportError::AuthenticationFailed)
                            },
                            Err(_) => Err(ImportError::AuthenticationFailed),
                        },
                    }
                }
            },
        }
    }
}

/// The header fields of a blob read back as the export wrote them.
proof fn lemma_header_fields(v: IdentityView, secret: Seq<u8>, salt: Seq<u8>, iterations: u32, nonce: Seq<u8>)
    requires
        salt.len() <= MAX_SALT_LEN,
        nonce.len() == NONCE_LEN,
    ensures
        ({
            let b = spec_export(v, secret, salt, iterations, nonce);
            let header = blob_header(v.suite, salt, iterations, nonce);
            &&& header.len() == 20 + salt.len()
            &&& b.len() >= 4
            &&& b[0] == FORMAT_VERSION
            &&& be16_value(b.subrange(1, 3)) == v.suite.spec_id()
            &&& b[3] as int == salt.len()
            &&& blob_header_len(b) == header.len()
            &&& blob_salt(b) == salt
            &&& blob_iterations(b) == iterations
            &&& blob_nonce(b) == nonce
            &&& b.take(blob_header_len(b)) == header
        }),
{
    let b = spec_export(v, secret, salt, iterations, nonce);
    let header = blob_header(v.suite, salt, iterations, nonce);
    let n = salt.len() as int;
    lemma_be16(v.suite.spec_id());
    lemma_be32(iterations);
    assert(b.subrange(1, 3) =~= be16_bytes(v.suite.spec_id()));
    assert(b[3] == salt.len() as u8);
    assert(b.subrange(4, 4 + n) =~= salt);
    assert(b.subrange(4 + n, 8 + n) =~= be32_bytes(iterations));
    assert(b.subrange(8 + n, 20 + n) =~= nonce);
    assert(b.take(20 + n) =~= header);
}

/// Exports an identity under a secret with the given salt, round count and
/// nonce: the identity's canonical encoding, encrypted and authenticated under
/// the key PBKDF2 derives from the secret, behind the header.
pub fn export_with(
    identity: &Identity,
    secret: &[u8],
    salt: &[u8],
    iterations: u32,
    nonce: &[u8],
) -> (r: Vec<u8>)
    requires
        identity@.wf(),
        salt@.len() <= MAX_SALT_LEN,
        nonce@.len() == NONCE_LEN,
    ensures
        r@ == spec_export(identity@, secret@, salt@, iterations, nonce@),
        1 <= iterations <= MAX_ITERATIONS ==> spec_import(r@, secret@) == Ok::<
            IdentityView,
            ImportError,
        >(identity@),
{
    let mut header: Vec<u8> = Vec::new();
    header.push(FORMAT_VERSION);
    push_be16(&mut header, identity.suite.id());
    header.push(salt.len() as u8);
    append_range(&mut header, salt, 0, salt.len());
    push_be32(&mut header, iterations);
    append_range(&mut header, nonce, 0, nonce.len());
    assert(salt@.subrange(0, salt@.len() as int) == salt@);
    assert(nonce@.subrange(0, nonce@.len() as int) == nonce@);
    assert(header@ =~= blob_header(identity.suite, salt@, iterations, nonce@));
    let mut key = pbkdf2_sha256(secret, salt, iterations);
    let mut plaintext = encode(identity);
    let ct = chacha20poly1305_seal(key.as_slice(), nonce, header.as_slice(), plaintext.as_slice());
    let mut out = header.clone();
    assert(out@ =~= header@);
    append_range(&mut out, ct.as_slice(), 0, ct.len());
    assert(ct@.subrange(0, ct@.len() as int) == ct@);
    assert(out@ =~= spec_export(identity@, secret@, salt@, iterations, nonce@));
    proof {
        lemma_header_fields(identity@, secret@, salt@, iterations, nonce@);
        lemma_decode_encoding(identity@);
        assert(out@.skip(blob_header_len(out@)) =~= ct@);
    }
    wipe(&mut key);
    wipe(&mut plaintext);
    out
}

/// Exports an identity under a secret, with a fresh random salt and nonce
/// from the operating system's entropy source and DEFAULT_ITERATIONS rounds.
pub fn export(identity: &Identity, secret: &[u8]) -> (r: Result<Vec<u8>, ExportError>)
    requires
        identity@.wf(),
    ensures
        r matches Ok(b) ==> {
            &&& b@ == spec_export(
                identity@,
                secret@,
                blob_salt(b@),
                DEFAULT_ITERATIONS,
                blob_nonce(b@),
            )
            &&& blob_salt(b@).len() == SALT_LEN
            &&& blob_nonce(b@).len() == NONCE_LEN
            &&& spec_import(b@, secret@) == Ok::<IdentityView, ImportError>(identity@)
        },
{
    let salt = match random_bytes(SALT_LEN) {
        Some(s) => s,
        None => return Err(ExportError::EntropyUnavailable),
    };
    let nonce = match random_bytes(NONCE_LEN) {
        Some(n) => n,
        None => return Err(ExportError::EntropyUnavailable),
    };
    let b = export_with(identity, secret, salt.as_slice(), DEFAULT_ITERATIONS, nonce.as_slice());
    proof {
        lemma_header_fields(identity@, secret@, salt@, DEFAULT_ITERATIONS, nonce@);
    }
    Ok(b)
}

/// Imports a blob under a secret. The format version and suite are checked
/// before the secret is used; the tag is verified before anything is decoded;
/// an identity comes back only where the tag verifies and what it protects
/// decodes to an identity of the blob's suite.
pub fn import(blob: &[u8], secret: &[u8]) -> (r: Result<Identity, ImportError>)
    ensures
        match r {
            Ok(i) => spec_import(blob@, secret@) == Ok::<IdentityView, ImportError>(i@),
            Err(e) => spec_import(blob@, secret@) == Err::<IdentityView, ImportError>(e),
        },
        r matches Ok(i) ==> i@.wf() && blob@ == spec_export(
            i@,
            secret@,
            blob_salt(blob@),
            blob_iterations(blob@),
            blob_nonce(blob@),
        ),
{
    let len = blob.len();
    if len < 1 {
        return Err(ImportError::MalformedEncoding);
    }
    if blob[0] != FORMAT_VERSION {
        return Err(ImportError::UnsupportedFormatVersion);
    }
    if len < 3 {
        return Err(ImportError::MalformedEncoding);
    }
    let suite = match resolve(read_be16(blob, 1)) {
        Some(s) => s,
        None => return Err(ImportError::UnsupportedSuite),
    };
    if len < 4 {
        return Err(ImportError::AuthenticationFailed);
    }
    let salt_len = blob[3] as usize;
    let header_len = 8 + salt_len + NONCE_LEN;
    if len < header_len + TAG_LEN {
        return Err(ImportError::AuthenticationFailed);
    }
    let iterations = read_be32(blob, 4 + salt_len);
    if iterations < 1 || iterations > MAX_ITERATIONS {
        return Err(ImportError::AuthenticationFailed);
    }
    let salt = vstd::slice::slice_subrange(blob, 4, 4 + salt_len);
    let nonce = vstd::slice::slice_subrange(blob, 8 + salt_len, header_len);
    let header = vstd::slice::slice_subrange(blob, 0, header_len);
    let ct = vstd::slice::slice_subrange(blob, header_len, len);
    assert(header@ =~= blob@.take(blob_header_len(blob@)));
    assert(ct@ =~= blob@.skip(blob_header_len(blob@)));
    let mut key = pbkdf2_sha256(secret, salt, iterations);
    let opened = chacha20poly1305_open(key.as_slice(), nonce, header, ct);
    wipe(&mut key);
    let mut plaintext = match opened {
        Some(p) => p,
        None => return Err(ImportError::AuthenticationFailed),
    };
    let decoded = decode(plaintext.as_slice());
    let ghost p = plaintext@;
    wipe(&mut plaintext);
    match decoded {
        Ok(identity) => {
            if identity.suite != suite {
                return Err(ImportError::AuthenticationFailed);
            }
            proof {
                lemma_encoding_of_decode(p);
                lemma_be16_inverse(blob@.subrange(1, 3));
                lemma_be32_inverse(blob@.subrange(4 + salt_len, 8 + salt_len));
                assert(blob_header(suite, salt@, iterations, nonce@) =~= header@);
                assert(blob@ =~= header@ + ct@);
            }
            Ok(identity)
        },
        Err(_) => Err(ImportError::AuthenticationFailed),
    }
}

/// A blob cut short anywhere before the end of its header and a full tag
/// does not import, under any secret.
pub proof fn lemma_import_truncated_fails(
    v: IdentityView,
    secret: Seq<u8>,
    salt: Seq<u8>,
    iterations: u32,
    nonce: Seq<u8>,
    other_secret: Seq<u8>,
    n: int,
)
    requires
        v.wf(),
        salt.len() <= MAX_SALT_LEN,
        nonce.len() == NONCE_LEN,
        0 <= n < 20 + salt.len() + 16,
        n < spec_export(v, secret, salt, iterations, nonce).len(),
    ensures
        spec_import(spec_export(v, secret, salt, iterations, nonce).take(n), other_secret) is Err,
{
    let b = spec_export(v, secret, salt, iterations, nonce);
    let p = b.take(n);
    lemma_header_fields(v, secret, salt, iterations, nonce);
    crate::suite::lemma_resolve_id(v.suite);
    if n >= 3 {
        assert(p.subrange(1, 3) =~= b.subrange(1, 3));
    }
    if n >= 4 {
        assert(p[3] == b[3]);
    }
}

/// Changing the format version byte or either byte of the suite identifier of
/// an exported blob makes it fail to import, under any secret.
pub proof fn lemma_import_tampered_prefix_fails(
    v: IdentityView,
    secret: Seq<u8>,
    salt: Seq<u8>,
    iterations: u32,
    nonce: Seq<u8>,
    other_secret: Seq<u8>,
    i: int,
    x: u8,
)
    requires
        v.wf(),
        salt.len() <= MAX_SALT_LEN,
        nonce.len() == NONCE_LEN,
        0 <= i < 3,
        x != spec_export(v, secret, salt, iterations, nonce)[i],
    ensures
        spec_import(spec_export(v, secret, salt, iterations, nonce).update(i, x), other_secret)
            is Err,
{
    let b = spec_export(v, secret, salt, iterations, nonce);
    let t = b.update(i, x);
    lemma_header_fields(v, secret, salt, iterations, nonce);
    if i > 0 && t[0] == FORMAT_VERSION {
        lemma_be16_inverse(b.subrange(1, 3));
        lemma_be16_inverse(t.subrange(1, 3));
        if be16_value(t.subrange(1, 3)) == be16_value(b.subrange(1, 3)) {
            assert(t.subrange(1, 3)[i - 1] == x);
            assert(b.subrange(1, 3)[i - 1] == b[i]);
        }
    }
}

/// Exports of one identity under one secret with different salts or nonces
/// (of the same lengths) are different byte sequences.
pub proof fn lemma_distinct_exports(
    v: IdentityView,
    secret: Seq<u8>,
    iterations: u32,
    salt1: Seq<u8>,
    nonce1: Seq<u8>,
    salt2: Seq<u8>,
    nonce2: Seq<u8>,
)
    requires
        salt1.len() == salt2.len() <= MAX_SALT_LEN,
        nonce1.len() == NONCE_LEN,
        nonce2.len() == NONCE_LEN,
        salt1 != salt2 || nonce1 != nonce2,
    ensures
        spec_export(v, secret, salt1, iterations, nonce1) != spec_export(
            v,
            secret,
            salt2,
            iterations,
            nonce2,
        ),
{
    lemma_header_fields(v, secret, salt1, iterations, nonce1);
    lemma_header_fields(v, secret, salt2, iterations, nonce2);
}

/// Once a blob's format version and suite are accepted, import either returns
/// an identity or fails with AuthenticationFailed: a header that overruns the
/// blob, an out-of-range round count, a failed tag and an undecodable payload
/// are not told apart.
pub proof fn lemma_import_failures_after_suite_are_authentication(b: Seq<u8>, secret: Seq<u8>)
    requires
        b.len() >= 3,
        b[0] == FORMAT_VERSION,
        spec_resolve(be16_value(b.subrange(1, 3))) is Some,
    ensures
        spec_import(b, secret) is Ok || spec_import(b, secret) == Err::<IdentityView, ImportError>(
            ImportError::AuthenticationFailed,
        ),
{
}

/// Changing any byte after the suite identifier of an exported blob (the rest
/// of the header, the ciphertext or the tag) leaves import two outcomes under
/// any secret: AuthenticationFailed, or an identity of which the changed blob
/// is itself an export under that secret (import's own guarantee).
pub proof fn lemma_import_tampered_after_suite(
    v: IdentityView,
    secret: Seq<u8>,
    salt: Seq<u8>,
    iterations: u32,
    nonce: Seq<u8>,
    other_secret: Seq<u8>,
    i: int,
    x: u8,
)
    requires
        v.wf(),
        salt.len() <= MAX_SALT_LEN,
        nonce.len() == NONCE_LEN,
        3 <= i < spec_export(v, secret, salt, iterations, nonce).len(),
    ensures
        ({
            let t = spec_export(v, secret, salt, iterations, nonce).update(i, x);
            spec_import(t, other_secret) is Ok || spec_import(t, other_secret) == Err::<
                IdentityView,
                ImportError,
            >(ImportError::AuthenticationFailed)
        }),
{
    let b = spec_export(v, secret, salt, iterations, nonce);
    let t = b.update(i, x);
    lemma_header_fields(v, secret, salt, iterations, nonce);
    crate::suite::lemma_resolve_id(v.suite);
    assert(t.subrange(1, 3) =~= b.subrange(1, 3));
    lemma_import_failures_after_suite_are_authentication(t, other_secret);
}

} // verus!
