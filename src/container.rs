use vstd::prelude::*;
use crate::error::VaultError;

verus! {

/// Bytes of random salt at the start of a container.
pub const SALT_LEN: usize = 16;

/// Bytes of nonce after the salt: the 96 bits that AES-GCM takes.
pub const NONCE_LEN: usize = 12;

/// Bytes of fixed header before the ciphertext.
pub const HEADER_LEN: usize = 28;

/// A container split into its three fields.
pub struct Container {
    pub salt: Vec<u8>,
    pub nonce: Vec<u8>,
    /// The ciphertext with its authentication tag appended.
    pub body: Vec<u8>,
}

impl Container {
    pub open spec fn wf(&self) -> bool {
        self.salt@.len() == SALT_LEN && self.nonce@.len() == NONCE_LEN
    }
}

/// The on-disk layout: salt, then nonce, then ciphertext and tag.
pub open spec fn framed(salt: Seq<u8>, nonce: Seq<u8>, body: Seq<u8>) -> Seq<u8> {
    salt + nonce + body
}

/// Appends `src` to `dst`.
fn append_bytes(dst: &mut Vec<u8>, src: &[u8])
    ensures
        final(dst)@ == old(dst)@ + src@,
{
    let mut i: usize = 0;
    while i < src.len()
        invariant
            i <= src@.len(),
            dst@ == old(dst)@ + src@.subrange(0, i as int),
        decreases src@.len() - i,
    {
        dst.push(src[i]);
        assert(src@.subrange(0, i as int + 1) =~= src@.subrange(0, i as int).push(src@[i as int]));
        i = i + 1;
    }
    assert(src@.subrange(0, i as int) =~= src@);
}

/// Lays out a container's bytes.
pub fn frame(salt: &[u8], nonce: &[u8], body: &[u8]) -> (r: Vec<u8>)
    requires
        salt@.len() == SALT_LEN,
        nonce@.len() == NONCE_LEN,
    ensures
        r@ == framed(salt@, nonce@, body@),
{
    let mut out: Vec<u8> = Vec::new();
    append_bytes(&mut out, salt);
    append_bytes(&mut out, nonce);
    append_bytes(&mut out, body);
    assert(out@ =~= framed(salt@, nonce@, body@));
    out
}

/// Splits container bytes into salt, nonce and ciphertext. Input shorter than
/// the header is a corrupted file, found before any cryptography runs.
pub fn unframe(bytes: &[u8]) -> (r: Result<Container, VaultError>)
    ensures
        (bytes@.len() < HEADER_LEN) <==> r is Err,
        r is Err ==> r == Err::<Container, VaultError>(VaultError::CorruptedFile),
        r matches Ok(c) ==> c.wf() && framed(c.salt@, c.nonce@, c.body@) == bytes@
            && c.salt@ == bytes@.subrange(0, SALT_LEN as int)
            && c.nonce@ == bytes@.subrange(SALT_LEN as int, HEADER_LEN as int)
            && c.body@ == bytes@.subrange(HEADER_LEN as int, bytes@.len() as int),
{
    if bytes.len() < HEADER_LEN {
        return Err(VaultError::CorruptedFile);
    }
    let mut salt: Vec<u8> = Vec::new();
    append_bytes(&mut salt, &bytes[0..SALT_LEN]);
    let mut nonce: Vec<u8> = Vec::new();
    append_bytes(&mut nonce, &bytes[SALT_LEN..HEADER_LEN]);
    let mut body: Vec<u8> = Vec::new();
    append_bytes(&mut body, &bytes[HEADER_LEN..bytes.len()]);
    assert(salt@ =~= bytes@.subrange(0, SALT_LEN as int));
    assert(nonce@ =~= bytes@.subrange(SALT_LEN as int, HEADER_LEN as int));
    assert(body@ =~= bytes@.subrange(HEADER_LEN as int, bytes@.len() as int));
    assert(framed(salt@, nonce@, body@) =~= bytes@);
    Ok(Container { salt, nonce, body })
}

} // verus!
