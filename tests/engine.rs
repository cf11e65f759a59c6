use crypto_engine::blob::{export, export_with, import, ImportError, DEFAULT_ITERATIONS};
use crypto_engine::codec::{decode, encode, CodecError};
use crypto_engine::identity::{GenerateError, Identity};
use crypto_engine::service::{MyMlsService, ServiceError, PING_MESSAGE};
use crypto_engine::suite::{resolve, CipherSuite, SUITE_ID_ED25519_CHACHA20POLY1305_SHA256};

const SUITE: u16 = SUITE_ID_ED25519_CHACHA20POLY1305_SHA256;

fn hex(s: &str) -> Vec<u8> {
    (0..s.len() / 2).map(|i| u8::from_str_radix(&s[2 * i..2 * i + 2], 16).unwrap()).collect()
}

fn sample_identity(credential: &[u8]) -> Identity {
    Identity::from_private_key(CipherSuite::Ed25519ChaCha20Poly1305Sha256, credential.to_vec(), vec![7u8; 32])
}

fn same_identity(a: &Identity, b: &Identity) -> bool {
    a.suite == b.suite
        && a.credential == b.credential
        && a.public_key == b.public_key
        && a.private_key == b.private_key
}

fn import_error(blob: &[u8], secret: &[u8]) -> Option<ImportError> {
    match import(blob, secret) {
        Ok(_) => None,
        Err(e) => Some(e),
    }
}

#[test]
fn registry_resolves_only_known_ids() {
    assert_eq!(resolve(3), Some(CipherSuite::Ed25519ChaCha20Poly1305Sha256));
    assert_eq!(resolve(1), None);
    assert_eq!(resolve(0), None);
    assert_eq!(resolve(0xffff), None);
    assert_eq!(CipherSuite::Ed25519ChaCha20Poly1305Sha256.id(), 3);
}

#[test]
fn public_key_matches_rfc8032_vector() {
    let sk = hex("9d61b19deffd5a60ba844af492ec2cc44449c5697b326919703bac031cae7f60");
    let id = Identity::from_private_key(CipherSuite::Ed25519ChaCha20Poly1305Sha256, b"bob".to_vec(), sk);
    assert_eq!(id.public_key(), &hex("d75a980182b10ab7d54bfed3c964073a0ee172f3daa62325af021a68f707511a")[..]);
}

#[test]
fn encoding_layout_is_exact() {
    let id = sample_identity(b"alice");
    let e = encode(&id);
    assert_eq!(e.len(), 7 + 5 + 64);
    assert_eq!(&e[..12], &[1u8, 0, 3, 0, 0, 0, 5, b'a', b'l', b'i', b'c', b'e'][..]);
    assert_eq!(&e[12..44], &id.public_key[..]);
    assert_eq!(&e[44..], &[7u8; 32][..]);
}

#[test]
fn generate_then_decode_round_trips() {
    for cred in [&b"alice"[..], &b""[..], &[0u8, 255, 1, 2][..]] {
        let id = match Identity::generate(SUITE, cred.to_vec()) {
            Ok(i) => i,
            Err(e) => panic!("generate failed: {:?}", e),
        };
        let back = match decode(&encode(&id)) {
            Ok(i) => i,
            Err(e) => panic!("decode failed: {:?}", e),
        };
        assert_eq!(back.suite(), CipherSuite::Ed25519ChaCha20Poly1305Sha256);
        assert_eq!(back.credential(), cred);
        assert_eq!(back.public_key(), id.public_key());
        assert!(same_identity(&id, &back));
    }
}

#[test]
fn generate_rejects_unknown_suite() {
    assert!(matches!(Identity::generate(9, b"alice".to_vec()), Err(GenerateError::UnsupportedSuite)));
}

#[test]
fn generate_draws_fresh_keys() {
    let a = Identity::generate(SUITE, b"alice".to_vec()).ok().unwrap();
    let b = Identity::generate(SUITE, b"alice".to_vec()).ok().unwrap();
    assert_ne!(a.private_key, b.private_key);
    assert_ne!(a.public_key, b.public_key);
}

#[test]
fn decode_reports_each_error() {
    let e = encode(&sample_identity(b"alice"));
    assert!(matches!(decode(&[]), Err(CodecError::TruncatedInput)));
    assert!(matches!(decode(&[2]), Err(CodecError::MalformedEncoding)));
    assert!(matches!(decode(&[1, 0]), Err(CodecError::TruncatedInput)));
    assert!(matches!(decode(&[1, 0, 9, 0, 0, 0, 0]), Err(CodecError::UnsupportedSuite)));
    let mut trailing = e.clone();
    trailing.push(0);
    assert!(matches!(decode(&trailing), Err(CodecError::MalformedEncoding)));
    let mut wrong_key = e.clone();
    wrong_key[12] ^= 1;
    assert!(matches!(decode(&wrong_key), Err(CodecError::MalformedEncoding)));
    let mut huge_len = e.clone();
    huge_len[3] = 0xff;
    assert!(matches!(decode(&huge_len), Err(CodecError::TruncatedInput)));
}

#[test]
fn decode_rejects_every_truncated_prefix() {
    let e = encode(&sample_identity(b"alice"));
    for n in 0..e.len() {
        assert!(decode(&e[..n]).is_err(), "prefix of length {} decoded", n);
    }
}

#[test]
fn export_import_round_trip() {
    let id = sample_identity(b"alice");
    let blob = export_with(&id, b"secret", &[1u8; 16], 1000, &[2u8; 12]);
    match import(&blob, b"secret") {
        Ok(back) => assert!(same_identity(&id, &back)),
        Err(e) => panic!("import failed: {:?}", e),
    }
}

#[test]
fn blob_header_layout_is_exact() {
    let id = sample_identity(b"alice");
    let blob = export_with(&id, b"secret", &[1u8; 16], 1000, &[2u8; 12]);
    assert_eq!(&blob[..4], &[1u8, 0, 3, 16][..]);
    assert_eq!(&blob[4..20], &[1u8; 16][..]);
    assert_eq!(&blob[20..24], &[0u8, 0, 0x03, 0xe8][..]);
    assert_eq!(&blob[24..36], &[2u8; 12][..]);
    assert_eq!(blob.len(), 36 + encode(&id).len() + 16);
}

#[test]
fn blob_ciphertext_hides_the_encoding() {
    let id = sample_identity(b"alice");
    let e = encode(&id);
    let blob = export_with(&id, b"secret", &[1u8; 16], 1000, &[2u8; 12]);
    assert_ne!(&blob[36..36 + e.len()], &e[..]);
    let other_key = export_with(&id, b"other", &[1u8; 16], 1000, &[2u8; 12]);
    assert_ne!(&blob[36..], &other_key[36..]);
}

#[test]
fn import_with_wrong_secret_fails() {
    let id = sample_identity(b"alice");
    let blob = export_with(&id, b"secret_a", &[1u8; 16], 1000, &[2u8; 12]);
    assert_eq!(import_error(&blob, b"secret_b"), Some(ImportError::AuthenticationFailed));
    assert_eq!(import_error(&blob, b""), Some(ImportError::AuthenticationFailed));
}

#[test]
fn import_detects_every_bit_flip() {
    let id = sample_identity(b"alice");
    let blob = export_with(&id, b"secret", &[1u8; 16], 1, &[2u8; 12]);
    for i in 0..blob.len() {
        let bit = i % 8;
        let mut t = blob.clone();
        t[i] ^= 1 << bit;
        let e = import_error(&t, b"secret");
        assert!(e.is_some(), "flip of bit {} in byte {} imported", bit, i);
        if i >= 3 {
            assert_eq!(e, Some(ImportError::AuthenticationFailed), "byte {}", i);
        }
    }
}

#[test]
fn import_header_errors() {
    let id = sample_identity(b"alice");
    let blob = export_with(&id, b"secret", &[1u8; 16], 1, &[2u8; 12]);
    let mut version = blob.clone();
    version[0] = 2;
    assert_eq!(import_error(&version, b"secret"), Some(ImportError::UnsupportedFormatVersion));
    let mut suite = blob.clone();
    suite[2] = 1;
    assert_eq!(import_error(&suite, b"secret"), Some(ImportError::UnsupportedSuite));
    let mut zero_rounds = blob.clone();
    zero_rounds[20..24].copy_from_slice(&[0, 0, 0, 0]);
    assert_eq!(import_error(&zero_rounds, b"secret"), Some(ImportError::AuthenticationFailed));
    let mut too_many_rounds = blob.clone();
    too_many_rounds[20..24].copy_from_slice(&[0xff, 0, 0, 0]);
    assert_eq!(import_error(&too_many_rounds, b"secret"), Some(ImportError::AuthenticationFailed));
    let mut long_salt = blob.clone();
    long_salt[3] = 0xff;
    assert_eq!(import_error(&long_salt, b"secret"), Some(ImportError::AuthenticationFailed));
    assert_eq!(import_error(&[], b"secret"), Some(ImportError::MalformedEncoding));
    assert_eq!(import_error(&[1, 0], b"secret"), Some(ImportError::MalformedEncoding));
    assert_eq!(import_error(&[1, 0, 3], b"secret"), Some(ImportError::AuthenticationFailed));
}

#[test]
fn import_rejects_every_truncated_prefix() {
    let id = sample_identity(b"alice");
    let blob = export_with(&id, b"secret", &[1u8; 16], 1, &[2u8; 12]);
    for n in 0..blob.len() {
        assert!(import_error(&blob[..n], b"secret").is_some(), "prefix of length {} imported", n);
    }
    assert_eq!(import_error(&blob[..36 + 15], b"secret"), Some(ImportError::AuthenticationFailed));
    assert_eq!(import_error(&blob[..2], b"secret"), Some(ImportError::MalformedEncoding));
}

#[test]
fn fresh_exports_differ_and_both_import() {
    let id = sample_identity(b"alice");
    let a = export(&id, b"secret").unwrap();
    let b = export(&id, b"secret").unwrap();
    assert_ne!(a, b);
    assert_ne!(&a[4..20], &b[4..20]);
    assert_eq!(&a[20..24], &DEFAULT_ITERATIONS.to_be_bytes()[..]);
    for blob in [&a, &b] {
        match import(blob, b"secret") {
            Ok(back) => assert!(same_identity(&id, &back)),
            Err(e) => panic!("import failed: {:?}", e),
        }
    }
}

#[test]
fn service_alice_scenario() {
    let svc = MyMlsService::default();
    let identity = svc.generate_identity(SUITE, b"alice".to_vec()).unwrap();
    let blob = svc.export_identity(&identity, b"pw1").unwrap();
    let imported = svc.import_identity(&blob, b"pw1").unwrap();
    match decode(&imported) {
        Ok(i) => assert_eq!(i.credential(), b"alice"),
        Err(e) => panic!("decode failed: {:?}", e),
    }
    assert_eq!(imported, identity);
    assert_eq!(svc.import_identity(&blob, b"pw2"), Err(ServiceError::AuthenticationFailed));
}

#[test]
fn service_failures_are_typed() {
    let svc = MyMlsService::default();
    assert_eq!(svc.generate_identity(1, b"alice".to_vec()), Err(ServiceError::UnsupportedSuite));
    assert_eq!(svc.export_identity(&[2, 0, 3], b"pw"), Err(ServiceError::NotFound));
    assert_eq!(svc.export_identity(&[1, 2, 3], b"pw"), Err(ServiceError::UnsupportedSuite));
    assert_eq!(svc.export_identity(&[1, 0, 1, 0, 0, 0, 0], b"pw"), Err(ServiceError::UnsupportedSuite));
    assert_eq!(svc.import_identity(&[], b"pw"), Err(ServiceError::MalformedInput));
    assert_eq!(svc.import_identity(&[9, 0, 3], b"pw"), Err(ServiceError::UnsupportedFormatVersion));
    assert_eq!(svc.import_identity(&[1, 0, 4], b"pw"), Err(ServiceError::UnsupportedSuite));
}

#[test]
fn wipe_clears_private_key_only() {
    let mut id = sample_identity(b"alice");
    let public_key = id.public_key.clone();
    id.wipe();
    assert!(id.private_key.is_empty());
    assert_eq!(id.credential(), b"alice");
    assert_eq!(id.public_key, public_key);
}

#[test]
fn service_export_header_has_fresh_parameters() {
    let svc = MyMlsService::default();
    let identity = svc.generate_identity(SUITE, b"carol".to_vec()).unwrap();
    let blob = svc.export_identity(&identity, b"pw").unwrap();
    assert_eq!(&blob[..4], &[1u8, 0, 3, 16][..]);
    let mut tampered = blob.clone();
    tampered[20] ^= 0x80;
    assert_eq!(svc.import_identity(&tampered, b"pw"), Err(ServiceError::AuthenticationFailed));
}

#[test]
fn ping_echoes_timestamp() {
    let r = MyMlsService::default().ping(1234);
    assert_eq!(r.message, PING_MESSAGE);
    assert_eq!(r.message, "Pong from Rust Crypto Engine!");
    assert_eq!(r.timestamp, 1234);
}
