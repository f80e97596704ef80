use vstd::prelude::*;
use vstd::utf8::encode_utf8;
use aes_gcm::aead::{Aead, KeyInit, Payload};
use aes_gcm::{Aes256Gcm, Nonce};
use argon2::Argon2;
use flate2::read::GzDecoder;
use flate2::write::GzEncoder;
use flate2::Compression;
use rand::RngCore;
use std::io::{Read, Write};
use zeroize::Zeroize;

verus! {

/// Bytes in a derived key: AES-256 takes 256 bits.
pub const KEY_LEN: usize = 32;

/// Bytes of authentication tag that AES-GCM appends to a ciphertext.
pub const TAG_LEN: usize = 16;

/// The fewest salt bytes Argon2 accepts.
pub const ARGON2_MIN_SALT: usize = 8;

/// The most passphrase bytes, and the most salt bytes, Argon2 accepts.
pub const ARGON2_MAX_INPUT: u64 = 0xFFFF_FFFF;

/// The longest plaintext AES-GCM accepts, in bytes.
pub const GCM_MAX_PLAINTEXT: u64 = 0x10_0000_0000;

/// The 32-byte Argon2id key (default parameters) for a passphrase, given as
/// its characters, and a salt; `None` where the derivation reports an error.
pub uninterp spec fn argon2_key(passphrase: Seq<char>, salt: Seq<u8>) -> Option<Seq<u8>>;

/// The gzip stream, at the best compression level, of some bytes; `None`
/// where the encoder reports an error.
pub uninterp spec fn gzip_best(data: Seq<u8>) -> Option<Seq<u8>>;

/// The bytes that a gzip stream decodes to; `None` where it is malformed.
pub uninterp spec fn gunzip(stream: Seq<u8>) -> Option<Seq<u8>>;

/// AES-256-GCM ciphertext with its tag appended, under a key and a nonce,
/// with no associated data.
pub uninterp spec fn gcm_seal(key: Seq<u8>, nonce: Seq<u8>, plaintext: Seq<u8>) -> Seq<u8>;

/// The plaintext that an AES-256-GCM ciphertext with its tag opens to under
/// a key and a nonce; `None` where the tag does not authenticate it.
pub uninterp spec fn gcm_open(key: Seq<u8>, nonce: Seq<u8>, sealed: Seq<u8>) -> Option<Seq<u8>>;

/// Relies on argon2's `Argon2::default().hash_password_into`, which fills a
/// 32-byte buffer from the passphrase's UTF-8 bytes and the salt. Its only
/// errors are a passphrase or salt over `ARGON2_MAX_INPUT` bytes and a salt
/// under `ARGON2_MIN_SALT` bytes; a 32-byte output is always in range.
#[verifier::external_body]
pub(crate) fn derive_key(passphrase: &str, salt: &[u8]) -> (r: Option<Vec<u8>>)
    requires
        salt@.len() >= ARGON2_MIN_SALT,
    ensures
        encode_utf8(passphrase@).len() <= ARGON2_MAX_INPUT && salt@.len() <= ARGON2_MAX_INPUT
            ==> r is Some,
        r matches Some(k) ==> k@.len() == KEY_LEN && argon2_key(passphrase@, salt@) == Some(k@),
        r is None ==> argon2_key(passphrase@, salt@) is None,
{
    let mut key = vec![0u8; KEY_LEN];
    match Argon2::default().hash_password_into(passphrase.as_bytes(), salt, &mut key) {
        Ok(()) => Some(key),
        Err(_) => None,
    }
}

/// Relies on flate2's `GzEncoder` over a `Vec` at `Compression::best()`:
/// what it writes, `GzDecoder` reads back.
#[verifier::external_body]
pub(crate) fn compress(data: &[u8]) -> (r: Option<Vec<u8>>)
    ensures
        r matches Some(z) ==> gzip_best(data@) == Some(z@) && gunzip(z@) == Some(data@),
        r is None ==> gzip_best(data@) is None,
{
    let mut encoder = GzEncoder::new(Vec::new(), Compression::best());
    match encoder.write_all(data) {
        Ok(()) => encoder.finish().ok(),
        Err(_) => None,
    }
}

/// Relies on flate2's `GzDecoder` reading a whole gzip stream from a slice.
#[verifier::external_body]
pub(crate) fn decompress(stream: &[u8]) -> (r: Option<Vec<u8>>)
    ensures
        r matches Some(d) ==> gunzip(stream@) == Some(d@),
        r is None ==> gunzip(stream@) is None,
{
    let mut out = Vec::new();
    match GzDecoder::new(stream).read_to_end(&mut out) {
        Ok(_) => Some(out),
        Err(_) => None,
    }
}

/// Relies on aes-gcm's `Aes256Gcm::encrypt`: it fails only on a plaintext
/// longer than its `P_MAX`, appends a 16-byte tag, and `decrypt` under the
/// same key and nonce gives the plaintext back.
#[verifier::external_body]
pub(crate) fn gcm_encrypt(key: &[u8], nonce: &[u8], plaintext: &[u8]) -> (r: Option<Vec<u8>>)
    requires
        key@.len() == KEY_LEN,
        nonce@.len() == 12,
    ensures
        r is Some <==> plaintext@.len() <= GCM_MAX_PLAINTEXT,
        r matches Some(c) ==> c@ == gcm_seal(key@, nonce@, plaintext@) && c@.len()
            == plaintext@.len() + TAG_LEN,
        r matches Some(c) ==> gcm_open(key@, nonce@, c@) == Some(plaintext@),
{
    let cipher = Aes256Gcm::new(aes_gcm::Key::<Aes256Gcm>::from_slice(key));
    cipher.encrypt(Nonce::from_slice(nonce), Payload::from(plaintext)).ok()
}

/// Relies on aes-gcm's `Aes256Gcm::decrypt`, which checks the trailing tag
/// and fails closed.
#[verifier::external_body]
pub(crate) fn gcm_decrypt(key: &[u8], nonce: &[u8], sealed: &[u8]) -> (r: Option<Vec<u8>>)
    requires
        key@.len() == KEY_LEN,
        nonce@.len() == 12,
    ensures
        r matches Some(p) ==> gcm_open(key@, nonce@, sealed@) == Some(p@),
        r is None ==> gcm_open(key@, nonce@, sealed@) is None,
{
    let cipher = Aes256Gcm::new(aes_gcm::Key::<Aes256Gcm>::from_slice(key));
    cipher.decrypt(Nonce::from_slice(nonce), Payload::from(sealed)).ok()
}

/// Relies on rand's `thread_rng().fill_bytes`: `len` bytes from the
/// thread-local generator, reseeded from the operating system.
#[verifier::external_body]
pub(crate) fn random_bytes(len: usize) -> (r: Vec<u8>)
    ensures
        r@.len() == len,
{
    let mut buf = vec![0u8; len];
    rand::thread_rng().fill_bytes(&mut buf);
    buf
}

/// Relies on zeroize's `Zeroize` for `String`: the bytes are overwritten
/// with zeros and the string is left empty.
#[verifier::external_body]
pub(crate) fn wipe_string(s: &mut String)
    ensures
        final(s)@.len() == 0,
{
    s.zeroize();
}

/// Relies on zeroize's `Zeroize` for `Vec<u8>`: the bytes and spare capacity
/// are overwritten with zeros and the vector is left empty.
#[verifier::external_body]
pub(crate) fn wipe_bytes(v: &mut Vec<u8>)
    ensures
        final(v)@.len() == 0,
{
    v.zeroize();
}

} // verus!
