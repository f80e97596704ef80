use vstd::prelude::*;
use vstd::string::StringExecFns;
use crate::container::{frame, framed, unframe, HEADER_LEN, NONCE_LEN, SALT_LEN};
use crate::error::{kind_of, ErrorKind, VaultError};
use crate::primitives::{
    argon2_key, compress, decompress, derive_key, gcm_decrypt, gcm_encrypt, gcm_open, gcm_seal,
    gunzip, gzip_best, random_bytes, wipe_bytes, wipe_string, ARGON2_MAX_INPUT, GCM_MAX_PLAINTEXT,
};
use vstd::utf8::encode_utf8;

verus! {

/// What sealing an archive gives for a passphrase, salt and nonce: the key
/// is derived, the archive compressed, encrypted and framed.
pub open spec fn seal_spec(passphrase: Seq<char>, salt: Seq<u8>, nonce: Seq<u8>, archive: Seq<u8>) -> Result<
    Seq<u8>,
    ErrorKind,
> {
    match argon2_key(passphrase, salt) {
        None => Err(ErrorKind::EncryptionError),
        Some(key) => match gzip_best(archive) {
            None => Err(ErrorKind::CompressionError),
            Some(z) => if z.len() > GCM_MAX_PLAINTEXT {
                Err(ErrorKind::EncryptionError)
            } else {
                Ok(framed(salt, nonce, gcm_seal(key, nonce, z)))
            },
        },
    }
}

/// What opening container bytes with a passphrase gives: a short container is
/// corrupted; otherwise the key is derived from the stored salt, the body
/// authenticated and decrypted, and the result decompressed.
pub open spec fn open_spec(passphrase: Seq<char>, container: Seq<u8>) -> Result<Seq<u8>, ErrorKind> {
    if container.len() < HEADER_LEN {
        Err(ErrorKind::CorruptedFile)
    } else {
        let salt = container.subrange(0, SALT_LEN as int);
        let nonce = container.subrange(SALT_LEN as int, HEADER_LEN as int);
        let body = container.subrange(HEADER_LEN as int, container.len() as int);
        match argon2_key(passphrase, salt) {
            None => Err(ErrorKind::EncryptionError),
            Some(key) => match gcm_open(key, nonce, body) {
                None => Err(ErrorKind::DecryptionFailed),
                Some(z) => match gunzip(z) {
                    None => Err(ErrorKind::CompressionError),
                    Some(archive) => Ok(archive),
                },
            },
        }
    }
}

/// A run's result with the error reduced to its kind.
pub open spec fn outcome(r: Result<Vec<u8>, VaultError>) -> Result<Seq<u8>, ErrorKind> {
    match r {
        Ok(v) => Ok(v@),
        Err(e) => Err(kind_of(&e)),
    }
}

/// Seals an archive under a passphrase with the given salt and nonce. The
/// passphrase and the derived key are wiped before returning, whatever the
/// outcome. What is sealed opens again to the same archive.
pub fn seal_with(archive: &[u8], passphrase: String, salt: &[u8], nonce: &[u8]) -> (r: Result<
    Vec<u8>,
    VaultError,
>)
    requires
        salt@.len() == SALT_LEN,
        nonce@.len() == NONCE_LEN,
    ensures
        outcome(r) == seal_spec(passphrase@, salt@, nonce@, archive@),
        r matches Ok(c) ==> open_spec(passphrase@, c@) == Ok::<Seq<u8>, ErrorKind>(archive@),
        encode_utf8(passphrase@).len() <= ARGON2_MAX_INPUT && gzip_best(archive@) is Some
            && gzip_best(archive@)->0.len() <= GCM_MAX_PLAINTEXT ==> r is Ok,
{
    let mut passphrase = passphrase;
    let ghost pass = passphrase@;
    let key = derive_key(passphrase.as_str(), salt);
    wipe_string(&mut passphrase);
    let mut key = match key {
        Some(k) => k,
        None => {
            return Err(VaultError::EncryptionError(String::from_str("Key derivation failure")));
        },
    };
    let compressed = match compress(archive) {
        Some(z) => z,
        None => {
            wipe_bytes(&mut key);
            return Err(VaultError::CompressionError(String::from_str("Compression failure")));
        },
    };
    let sealed = gcm_encrypt(key.as_slice(), nonce, compressed.as_slice());
    let ghost k = key@;
    wipe_bytes(&mut key);
    let sealed = match sealed {
        Some(c) => c,
        None => {
            return Err(VaultError::EncryptionError(String::from_str("Cipher failure")));
        },
    };
    let out = frame(salt, nonce, sealed.as_slice());
    proof {
        let c = out@;
        assert(c.subrange(0, SALT_LEN as int) =~= salt@);
        assert(c.subrange(SALT_LEN as int, HEADER_LEN as int) =~= nonce@);
        assert(c.subrange(HEADER_LEN as int, c.len() as int) =~= sealed@);
        assert(argon2_key(pass, salt@) == Some(k));
    }
    Ok(out)
}

/// Seals an archive under a passphrase with a fresh random salt and nonce,
/// stored in the container's header.
pub fn seal_archive(archive: &[u8], passphrase: String) -> (r: Result<Vec<u8>, VaultError>)
    ensures
        r matches Ok(c) ==> c@.len() >= HEADER_LEN && seal_spec(
            passphrase@,
            c@.subrange(0, SALT_LEN as int),
            c@.subrange(SALT_LEN as int, HEADER_LEN as int),
            archive@,
        ) == Ok::<Seq<u8>, ErrorKind>(c@),
        r matches Ok(c) ==> open_spec(passphrase@, c@) == Ok::<Seq<u8>, ErrorKind>(archive@),
        encode_utf8(passphrase@).len() <= ARGON2_MAX_INPUT && gzip_best(archive@) is Some
            && gzip_best(archive@)->0.len() <= GCM_MAX_PLAINTEXT ==> r is Ok,
        r matches Err(e) ==> exists|salt: Seq<u8>, nonce: Seq<u8>|
            salt.len() == SALT_LEN && nonce.len() == NONCE_LEN && #[trigger] seal_spec(
                passphrase@,
                salt,
                nonce,
                archive@,
            ) == Err::<Seq<u8>, ErrorKind>(kind_of(&e)),
{
    let salt = random_bytes(SALT_LEN);
    let nonce = random_bytes(NONCE_LEN);
    let r = seal_with(archive, passphrase, salt.as_slice(), nonce.as_slice());
    proof {
        if r is Ok {
            let c = r->Ok_0@;
            assert(c.subrange(0, SALT_LEN as int) =~= salt@);
            assert(c.subrange(SALT_LEN as int, HEADER_LEN as int) =~= nonce@);
        }
    }
    r
}

/// Opens container bytes with a passphrase, giving back the archive that was
/// sealed. The passphrase and the derived key are wiped before returning.
pub fn open_container(container: &[u8], passphrase: String) -> (r: Result<Vec<u8>, VaultError>)
    ensures
        outcome(r) == open_spec(passphrase@, container@),
        container@.len() < HEADER_LEN ==> r matches Err(VaultError::CorruptedFile),
        container@.len() >= HEADER_LEN && encode_utf8(passphrase@).len() <= ARGON2_MAX_INPUT ==> !(
        r matches Err(VaultError::EncryptionError(_))),
{
    let mut passphrase = passphrase;
    let ghost pass = passphrase@;
    let parts = match unframe(container) {
        Ok(c) => c,
        Err(e) => {
            wipe_string(&mut passphrase);
            return Err(e);
        },
    };
    let key = derive_key(passphrase.as_str(), parts.salt.as_slice());
    wipe_string(&mut passphrase);
    let mut key = match key {
        Some(k) => k,
        None => {
            return Err(VaultError::EncryptionError(String::from_str("Key derivation failure")));
        },
    };
    let opened = gcm_decrypt(key.as_slice(), parts.nonce.as_slice(), parts.body.as_slice());
    wipe_bytes(&mut key);
    let compressed = match opened {
        Some(z) => z,
        None => {
            return Err(VaultError::DecryptionFailed);
        },
    };
    match decompress(compressed.as_slice()) {
        Some(a) => Ok(a),
        None => Err(VaultError::CompressionError(String::from_str("Malformed compressed stream"))),
    }
}

} // verus!
