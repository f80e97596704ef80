use shhcrypt::{
    frame, open_container, seal_archive, seal_with, unframe, ErrorKind, VaultError, HEADER_LEN,
    NONCE_LEN, SALT_LEN,
};

fn sample_archive() -> Vec<u8> {
    let mut a = Vec::new();
    for i in 0..3000u32 {
        a.push((i % 251) as u8);
    }
    a
}

#[test]
fn round_trip_restores_archive() {
    let archive = sample_archive();
    let sealed = seal_archive(&archive, "correct horse".to_string()).unwrap();
    let opened = open_container(&sealed, "correct horse".to_string()).unwrap();
    assert_eq!(opened, archive);
}

#[test]
fn round_trip_empty_archive() {
    let sealed = seal_archive(&[], "pw".to_string()).unwrap();
    assert!(sealed.len() >= HEADER_LEN + 16);
    let opened = open_container(&sealed, "pw".to_string()).unwrap();
    assert!(opened.is_empty());
}

#[test]
fn sealed_body_is_not_the_plaintext() {
    let archive = vec![b'A'; 64];
    let salt = [1u8; SALT_LEN];
    let nonce = [2u8; NONCE_LEN];
    let sealed = seal_with(&archive, "pw".to_string(), &salt, &nonce).unwrap();
    assert_eq!(&sealed[0..SALT_LEN], &salt[..]);
    assert_eq!(&sealed[SALT_LEN..HEADER_LEN], &nonce[..]);
    let body = &sealed[HEADER_LEN..];
    assert!(body.windows(64).all(|w| w != &archive[..]));
    assert_eq!(open_container(&sealed, "pw".to_string()).unwrap(), archive);
}

#[test]
fn fixed_salt_and_nonce_seal_deterministically() {
    let archive = sample_archive();
    let salt = [7u8; SALT_LEN];
    let nonce = [9u8; NONCE_LEN];
    let a = seal_with(&archive, "pw".to_string(), &salt, &nonce).unwrap();
    let b = seal_with(&archive, "pw".to_string(), &salt, &nonce).unwrap();
    assert_eq!(a, b);
}

#[test]
fn wrong_passphrase_is_rejected() {
    let archive = sample_archive();
    let sealed = seal_archive(&archive, "right".to_string()).unwrap();
    let r = open_container(&sealed, "wrong".to_string());
    assert_eq!(r, Err(VaultError::DecryptionFailed));
}

#[test]
fn tampered_ciphertext_is_rejected() {
    let archive = sample_archive();
    let sealed = seal_archive(&archive, "pw".to_string()).unwrap();
    for pos in [HEADER_LEN, sealed.len() - 1] {
        let mut t = sealed.clone();
        t[pos] ^= 0x01;
        let r = open_container(&t, "pw".to_string());
        let k = r.unwrap_err().kind();
        assert!(k == ErrorKind::DecryptionFailed || k == ErrorKind::CorruptedFile);
    }
}

#[test]
fn tampered_nonce_is_rejected() {
    let sealed = seal_archive(b"data", "pw".to_string()).unwrap();
    let mut t = sealed.clone();
    t[SALT_LEN] ^= 0x80;
    assert_eq!(open_container(&t, "pw".to_string()), Err(VaultError::DecryptionFailed));
}

#[test]
fn short_container_is_corrupted() {
    for len in 0..HEADER_LEN {
        let bytes = vec![0u8; len];
        assert_eq!(open_container(&bytes, "pw".to_string()), Err(VaultError::CorruptedFile));
        assert!(matches!(unframe(&bytes), Err(VaultError::CorruptedFile)));
    }
}

#[test]
fn header_only_container_fails_authentication() {
    let bytes = vec![0u8; HEADER_LEN];
    assert_eq!(open_container(&bytes, "pw".to_string()), Err(VaultError::DecryptionFailed));
}

#[test]
fn two_seals_use_fresh_salt_and_nonce() {
    let archive = b"same input".to_vec();
    let a = seal_archive(&archive, "pw".to_string()).unwrap();
    let b = seal_archive(&archive, "pw".to_string()).unwrap();
    assert_ne!(&a[0..SALT_LEN], &b[0..SALT_LEN]);
    assert_ne!(&a[SALT_LEN..HEADER_LEN], &b[SALT_LEN..HEADER_LEN]);
    assert_ne!(a, b);
}

#[test]
fn frame_and_unframe_agree() {
    let salt: Vec<u8> = (0..16).collect();
    let nonce: Vec<u8> = (100..112).collect();
    let body = vec![0xAA, 0xBB, 0xCC];
    let bytes = frame(&salt, &nonce, &body);
    assert_eq!(bytes.len(), 31);
    assert_eq!(bytes[0], 0);
    assert_eq!(bytes[16], 100);
    assert_eq!(bytes[28], 0xAA);
    let c = unframe(&bytes).unwrap();
    assert_eq!(c.salt, salt);
    assert_eq!(c.nonce, nonce);
    assert_eq!(c.body, body);
}

#[test]
fn unframe_exact_header_has_empty_body() {
    let bytes: Vec<u8> = (0..28).collect();
    let c = unframe(&bytes).unwrap();
    assert_eq!(c.salt, (0..16).collect::<Vec<u8>>());
    assert_eq!(c.nonce, (16..28).collect::<Vec<u8>>());
    assert!(c.body.is_empty());
}

#[test]
fn error_messages_and_kinds() {
    assert_eq!(VaultError::FileNotFound("x".to_string()).message(), "File not found: x");
    assert_eq!(VaultError::InvalidPath.message(), "Invalid path");
    assert_eq!(VaultError::EncryptionError("e".to_string()).message(), "Encryption error: e");
    assert_eq!(VaultError::DecryptionFailed.message(), "Decryption failed (Wrong key?)");
    assert_eq!(VaultError::CorruptedFile.message(), "File corrupted or wrong key");
    assert_eq!(VaultError::CompressionError("c".to_string()).message(), "Compression error: c");
    assert_eq!(VaultError::ArchiveError("t".to_string()).message(), "Archive error: t");
    assert_eq!(VaultError::IOError("io".to_string()).message(), "IO Error: io");
    assert_eq!(VaultError::InvalidPath.kind(), ErrorKind::InvalidPath);
    assert_eq!(VaultError::IOError(String::new()).kind(), ErrorKind::IOError);
    assert_eq!(VaultError::ArchiveError(String::new()).kind(), ErrorKind::ArchiveError);
    assert_eq!(VaultError::FileNotFound(String::new()).kind(), ErrorKind::FileNotFound);
}

#[test]
fn empty_passphrase_still_seals() {
    let sealed = seal_archive(b"x", String::new()).unwrap();
    assert_eq!(open_container(&sealed, String::new()).unwrap(), b"x".to_vec());
}
