//! The canonical byte encoding of an identity:
//! `[version:1][suite_id:2][credential_len:4][credential][public_key:32][private_key:32]`,
//! integers big-endian.

use vstd::prelude::*;
use crate::identity::{Identity, IdentityView};
use crate::primitives::{ed25519_public_key, ed25519_public_of, wipe};
use crate::suite::{resolve, spec_resolve, SIGNATURE_KEY_LEN};

verus! {

/// Version byte that opens every canonical encoding.
pub const ENCODING_VERSION: u8 = 1;

/// Bytes before the credential: version, suite identifier, credential length.
pub const ENCODING_PREFIX_LEN: usize = 7;

#[derive(Clone, Copy, Debug, PartialEq, Eq, Structural)]
pub enum CodecError {
    /// The bytes are not an encoding: wrong version, trailing bytes, or a key pair that does not match.
    MalformedEncoding,
    /// The suite identifier names no supported suite.
    UnsupportedSuite,
    /// The bytes end before a field that they announce.
    TruncatedInput,
}

/// Two bytes, most significant first.
pub open spec fn be16_bytes(v: u16) -> Seq<u8> {
    seq![(v / 256) as u8, (v % 256) as u8]
}

/// The value of two bytes, most significant first.
pub open spec fn be16_value(s: Seq<u8>) -> u16 {
    (s[0] as int * 256 + s[1] as int) as u16
}

/// Four bytes, most significant first.
pub open spec fn be32_bytes(v: u32) -> Seq<u8> {
    seq![(v / 16777216) as u8, ((v / 65536) % 256) as u8, ((v / 256) % 256) as u8, (v % 256) as u8]
}

/// The value of four bytes, most significant first.
pub open spec fn be32_value(s: Seq<u8>) -> u32 {
    (s[0] as int * 16777216 + s[1] as int * 65536 + s[2] as int * 256 + s[3] as int) as u32
}

pub proof fn lemma_be16(v: u16)
    ensures
        be16_bytes(v).len() == 2,
        be16_value(be16_bytes(v)) == v,
{
}

pub proof fn lemma_be32(v: u32)
    ensures
        be32_bytes(v).len() == 4,
        be32_value(be32_bytes(v)) == v,
{
}

pub proof fn lemma_be16_inverse(s: Seq<u8>)
    requires
        s.len() == 2,
    ensures
        be16_bytes(be16_value(s)) == s,
{
    assert(be16_bytes(be16_value(s)) =~= s);
}

pub proof fn lemma_be32_inverse(s: Seq<u8>)
    requires
        s.len() == 4,
    ensures
        be32_bytes(be32_value(s)) == s,
{
    assert(be32_bytes(be32_value(s)) =~= s);
}

/// Decoding the encoding of a well-formed identity gives that identity back.
pub proof fn lemma_decode_encoding(v: IdentityView)
    requires
        v.wf(),
    ensures
        spec_decode(encoding(v)) == Ok::<IdentityView, CodecError>(v),
{
    let e = encoding(v);
    let n = v.credential.len() as int;
    lemma_be16(v.suite.spec_id());
    lemma_be32(v.credential.len() as u32);
    crate::suite::lemma_resolve_id(v.suite);
    assert(e.subrange(1, 3) =~= be16_bytes(v.suite.spec_id()));
    assert(e.subrange(3, 7) =~= be32_bytes(v.credential.len() as u32));
    assert(e.subrange(7, 7 + n) =~= v.credential);
    assert(e.subrange(7 + n, 7 + n + 32) =~= v.public_key);
    assert(e.subrange(7 + n + 32, 7 + n + 64) =~= v.private_key);
}

/// Every byte sequence that decodes is the encoding of what it decodes to:
/// the encoding is canonical.
pub proof fn lemma_encoding_of_decode(b: Seq<u8>)
    requires
        spec_decode(b) is Ok,
    ensures
        encoding(spec_decode(b)->Ok_0) == b,
{
    let v = spec_decode(b)->Ok_0;
    let n = be32_value(b.subrange(3, 7)) as int;
    lemma_be16_inverse(b.subrange(1, 3));
    lemma_be32_inverse(b.subrange(3, 7));
    assert(v.suite.spec_id() == be16_value(b.subrange(1, 3)));
    assert(v.credential.len() as u32 == be32_value(b.subrange(3, 7)));
    assert(encoding(v) =~= b);
}

/// No strict prefix of a well-formed identity's encoding decodes.
pub proof fn lemma_decode_prefix_fails(v: IdentityView, n: int)
    requires
        v.wf(),
        0 <= n < encoding(v).len(),
    ensures
        spec_decode(encoding(v).take(n)) is Err,
{
    let e = encoding(v);
    let p = e.take(n);
    lemma_decode_encoding(v);
    if n >= 7 {
        assert(p.subrange(1, 3) =~= e.subrange(1, 3));
        assert(p.subrange(3, 7) =~= e.subrange(3, 7));
    } else if n >= 3 {
        assert(p.subrange(1, 3) =~= e.subrange(1, 3));
    }
}

/// The canonical encoding of an identity.
pub open spec fn encoding(v: IdentityView) -> Seq<u8> {
    seq![ENCODING_VERSION] + be16_bytes(v.suite.spec_id()) + be32_bytes(v.credential.len() as u32)
        + v.credential + v.public_key + v.private_key
}

/// What decoding yields for a byte sequence.
pub open spec fn spec_decode(b: Seq<u8>) -> Result<IdentityView, CodecError> {
    if b.len() < 1 {
        Err(CodecError::TruncatedInput)
    } else if b[0] != ENCODING_VERSION {
        Err(CodecError::MalformedEncoding)
    } else if b.len() < 3 {
        Err(CodecError::TruncatedInput)
    } else {
        match spec_resolve(be16_value(b.subrange(1, 3))) {
            None => Err(CodecError::UnsupportedSuite),
            Some(suite) => {
                if b.len() < 7 {
                    Err(CodecError::TruncatedInput)
                } else {
                    let n = be32_value(b.subrange(3, 7)) as int;
                    if b.len() < 7 + n + 64 {
                        Err(CodecError::TruncatedInput)
                    } else if b.len() > 7 + n + 64 {
                        Err(CodecError::MalformedEncoding)
                    } else {
                        let public_key = b.subrange(7 + n, 7 + n + 32);
                        let private_key = b.subrange(7 + n + 32, 7 + n + 64);
                        if public_key != ed25519_public_of(private_key) {
                            Err(CodecError::MalformedEncoding)
                        } else {
                            Ok(
                                IdentityView {
                                    suite,
                                    credential: b.subrange(7, 7 + n),
                                    public_key,
                                    private_key,
                                },
                            )
                        }
                    }
                }
            },
        }
    }
}

/// Appends `src[start..end]` to `out`.
pub(crate) fn append_range(out: &mut Vec<u8>, src: &[u8], start: usize, end: usize)
    requires
        start <= end <= src@.len(),
    ensures
        final(out)@ == old(out)@ + src@.subrange(start as int, end as int),
{
    let mut i: usize = start;
    while i < end
        invariant
            start <= i <= end <= src@.len(),
            out@ == old(out)@ + src@.subrange(start as int, i as int),
        decreases end - i,
    {
        out.push(src[i]);
        assert(src@.subrange(start as int, i + 1) == src@.subrange(start as int, i as int).push(
            src@[i as int],
        ));
        i = i + 1;
    }
}

/// `src[start..end]` as a vector.
pub(crate) fn copy_range(src: &[u8], start: usize, end: usize) -> (r: Vec<u8>)
    requires
        start <= end <= src@.len(),
    ensures
        r@ == src@.subrange(start as int, end as int),
{
    let mut r: Vec<u8> = Vec::new();
    append_range(&mut r, src, start, end);
    assert(r@ =~= src@.subrange(start as int, end as int));
    r
}

/// Appends two bytes, most significant first.
pub(crate) fn push_be16(out: &mut Vec<u8>, v: u16)
    ensures
        final(out)@ == old(out)@ + be16_bytes(v),
{
    out.push((v / 256) as u8);
    out.push((v % 256) as u8);
    assert(final(out)@ =~= old(out)@ + be16_bytes(v));
}

/// Appends four bytes, most significant first.
pub(crate) fn push_be32(out: &mut Vec<u8>, v: u32)
    ensures
        final(out)@ == old(out)@ + be32_bytes(v),
{
    out.push((v / 16777216) as u8);
    out.push(((v / 65536) % 256) as u8);
    out.push(((v / 256) % 256) as u8);
    out.push((v % 256) as u8);
    assert(final(out)@ =~= old(out)@ + be32_bytes(v));
}

/// Reads two bytes at `at`, most significant first.
pub(crate) fn read_be16(b: &[u8], at: usize) -> (r: u16)
    requires
        at + 2 <= b@.len(),
    ensures
        r == be16_value(b@.subrange(at as int, at + 2)),
{
    (b[at] as u16) * 256 + (b[at + 1] as u16)
}

/// Reads four bytes at `at`, most significant first.
pub(crate) fn read_be32(b: &[u8], at: usize) -> (r: u32)
    requires
        at + 4 <= b@.len(),
    ensures
        r == be32_value(b@.subrange(at as int, at + 4)),
{
    (b[at] as u32) * 16777216 + (b[at + 1] as u32) * 65536 + (b[at + 2] as u32) * 256 + (
    b[at + 3] as u32)
}

/// Whether `a` occurs in `b` at position `at`.
pub(crate) fn matches_at(a: &[u8], b: &[u8], at: usize) -> (r: bool)
    requires
        at + a@.len() <= b@.len(),
    ensures
        r == (a@ == b@.subrange(at as int, at + a@.len())),
{
    let b_len = b.len();
    let mut i: usize = 0;
    while i < a.len()
        invariant
            0 <= i <= a@.len(),
            b_len == b@.len(),
            at + a@.len() <= b@.len(),
            forall|j: int| 0 <= j < i ==> a@[j] == b@[at + j],
        decreases a@.len() - i,
    {
        if a[i] != b[at + i] {
            assert(a@[i as int] != b@.subrange(at as int, at + a@.len())[i as int]);
            return false;
        }
        i = i + 1;
    }
    assert(a@ =~= b@.subrange(at as int, at + a@.len()));
    true
}

/// The canonical encoding of a well-formed identity.
pub fn encode(identity: &Identity) -> (r: Vec<u8>)
    requires
        identity@.wf(),
    ensures
        r@ == encoding(identity@),
{
    let mut out: Vec<u8> = Vec::new();
    out.push(ENCODING_VERSION);
    push_be16(&mut out, identity.suite.id());
    push_be32(&mut out, identity.credential.len() as u32);
    let c = identity.credential.as_slice();
    append_range(&mut out, c, 0, c.len());
    let p = identity.public_key.as_slice();
    append_range(&mut out, p, 0, p.len());
    let s = identity.private_key.as_slice();
    append_range(&mut out, s, 0, s.len());
    assert(c@.subrange(0, c@.len() as int) == c@);
    assert(p@.subrange(0, p@.len() as int) == p@);
    assert(s@.subrange(0, s@.len() as int) == s@);
    assert(out@ =~= encoding(identity@));
    out
}

/// Parses a canonical encoding, checking every announced length against the
/// bytes that remain, rejecting trailing bytes and a key pair that does not match.
pub fn decode(b: &[u8]) -> (r: Result<Identity, CodecError>)
    ensures
        match r {
            Ok(i) => spec_decode(b@) == Ok::<IdentityView, CodecError>(i@),
            Err(e) => spec_decode(b@) == Err::<IdentityView, CodecError>(e),
        },
{
    if b.len() < 1 {
        return Err(CodecError::TruncatedInput);
    }
    if b[0] != ENCODING_VERSION {
        return Err(CodecError::MalformedEncoding);
    }
    if b.len() < 3 {
        return Err(CodecError::TruncatedInput);
    }
    let suite = match resolve(read_be16(b, 1)) {
        Some(s) => s,
        None => return Err(CodecError::UnsupportedSuite),
    };
    if b.len() < ENCODING_PREFIX_LEN {
        return Err(CodecError::TruncatedInput);
    }
    let n = read_be32(b, 3) as usize;
    let rest = b.len() - ENCODING_PREFIX_LEN;
    if rest < 2 * SIGNATURE_KEY_LEN || rest - 2 * SIGNATURE_KEY_LEN < n {
        return Err(CodecError::TruncatedInput);
    }
    if rest - 2 * SIGNATURE_KEY_LEN > n {
        return Err(CodecError::MalformedEncoding);
    }
    let key_at = ENCODING_PREFIX_LEN + n;
    let mut private_key = copy_range(b, key_at + SIGNATURE_KEY_LEN, key_at + 2 * SIGNATURE_KEY_LEN);
    let derived = ed25519_public_key(private_key.as_slice());
    if !matches_at(derived.as_slice(), b, key_at) {
        wipe(&mut private_key);
        return Err(CodecError::MalformedEncoding);
    }
    let credential = copy_range(b, ENCODING_PREFIX_LEN, key_at);
    Ok(Identity { suite, credential, public_key: derived, private_key })
}

} // verus!
