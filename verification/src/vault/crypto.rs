//! Authenticated encryption of byte payloads: AES-256-GCM with a 12-byte
//! nonce and no associated data.

use vstd::prelude::*;
use ring::aead::{Aad, LessSafeKey, Nonce, UnboundKey, AES_256_GCM};
use ring::error::Unspecified;
use ring::rand::{SecureRandom, SystemRandom};
use crate::vault::error::VaultError;

verus! {

/// Length in bytes of the symmetric key.
pub const KEY_LEN: usize = 32;

/// Length in bytes of a nonce.
pub const NONCE_LEN: usize = 12;

/// Length in bytes of the integrity tag that sealing appends.
pub const TAG_LEN: usize = 16;

#[verifier::external_type_specification]
#[verifier::external_body]
pub struct ExUnspecified(Unspecified);

#[verifier::external_type_specification]
#[verifier::external_body]
pub struct ExSystemRandom(SystemRandom);

/// What AES-256-GCM sealing of `plaintext` under `key` and `nonce`, with no
/// associated data, produces: the ciphertext followed by its tag, or `None`
/// where the cipher refuses the key or the input.
pub uninterp spec fn aes_256_gcm_seal(key: Seq<u8>, nonce: Seq<u8>, plaintext: Seq<u8>) -> Option<Seq<u8>>;

/// What AES-256-GCM opening of `sealed` under `key` and `nonce`, with no
/// associated data, yields: the plaintext, or `None` where the key or nonce
/// is refused or the tag does not verify.
pub uninterp spec fn aes_256_gcm_open(key: Seq<u8>, nonce: Seq<u8>, sealed: Seq<u8>) -> Option<Seq<u8>>;

/// `LessSafeKey::seal_in_place_append_tag` under a key made by
/// `UnboundKey::new` for `AES_256_GCM`.
///
/// Trusted: a key that is not 32 bytes long and a nonce that is not 12 bytes
/// long are refused; on success `data` holds the named sealing result, which
/// is 16 bytes longer than the input, and opening that result under the same
/// key and nonce gives the input back.
#[verifier::external_body]
fn seal_in_place(key: &[u8], nonce: &[u8], data: &mut Vec<u8>) -> (r: Result<(), Unspecified>)
    ensures
        r is Ok <==> aes_256_gcm_seal(key@, nonce@, old(data)@) is Some,
        r is Ok ==> aes_256_gcm_seal(key@, nonce@, old(data)@) == Some(final(data)@),
        r is Ok ==> final(data)@.len() == old(data)@.len() + TAG_LEN,
        r is Ok ==> aes_256_gcm_open(key@, nonce@, final(data)@) == Some(old(data)@),
        key@.len() != KEY_LEN || nonce@.len() != NONCE_LEN ==> r is Err,
{
    let sealing_key = LessSafeKey::new(UnboundKey::new(&AES_256_GCM, key)?);
    let nonce = Nonce::try_assume_unique_for_key(nonce)?;
    sealing_key.seal_in_place_append_tag(nonce, Aad::empty(), data)
}

/// `LessSafeKey::open_in_place` under a key made by `UnboundKey::new` for
/// `AES_256_GCM`.
///
/// Trusted: the outcome is the named opening result; a key that is not 32
/// bytes long, a nonce that is not 12 bytes long and an input shorter than
/// the tag are refused; a plaintext is 16 bytes shorter than the input.
#[verifier::external_body]
fn open_sealed(key: &[u8], nonce: &[u8], sealed: &[u8]) -> (r: Result<Vec<u8>, Unspecified>)
    ensures
        r matches Ok(plaintext) ==> aes_256_gcm_open(key@, nonce@, sealed@) == Some(plaintext@),
        r matches Ok(plaintext) ==> plaintext@.len() + TAG_LEN == sealed@.len(),
        r is Err ==> aes_256_gcm_open(key@, nonce@, sealed@) is None,
        key@.len() != KEY_LEN || nonce@.len() != NONCE_LEN || sealed@.len() < TAG_LEN ==> r is Err,
{
    let opening_key = LessSafeKey::new(UnboundKey::new(&AES_256_GCM, key)?);
    let nonce = Nonce::try_assume_unique_for_key(nonce)?;
    let mut buffer = sealed.to_vec();
    let plaintext = opening_key.open_in_place(nonce, Aad::empty(), &mut buffer)?;
    Ok(plaintext.to_vec())
}

/// `SystemRandom::new`.
#[verifier::external_body]
pub(crate) fn system_random() -> SystemRandom {
    SystemRandom::new()
}

/// `SecureRandom::fill` on a `SystemRandom`: overwrites `dest` with random
/// bytes. Trusted: the length of `dest` does not change.
#[verifier::external_body]
pub(crate) fn fill_random(rng: &SystemRandom, dest: &mut Vec<u8>) -> (r: Result<(), Unspecified>)
    ensures
        final(dest)@.len() == old(dest)@.len(),
{
    rng.fill(dest)
}

/// What sealing yields: a key of the wrong length is a key error, a refusal
/// by the cipher an encryption error, and otherwise the sealed bytes.
pub open spec fn seal_spec(key: Seq<u8>, nonce: Seq<u8>, plaintext: Seq<u8>) -> Result<
    Seq<u8>,
    VaultError,
> {
    if key.len() != KEY_LEN {
        Err(VaultError::Key)
    } else {
        match aes_256_gcm_seal(key, nonce, plaintext) {
            Some(sealed) => Ok(sealed),
            None => Err(VaultError::Encryption),
        }
    }
}

/// What opening yields: the plaintext where key and nonce have the right
/// lengths and the cipher accepts the sealed bytes, and a decryption error in
/// every other case. A plaintext is as long as the sealed bytes without
/// their tag.
pub open spec fn open_spec(key: Seq<u8>, sealed: Seq<u8>, nonce: Seq<u8>) -> Result<
    Seq<u8>,
    VaultError,
> {
    if key.len() != KEY_LEN || nonce.len() != NONCE_LEN || sealed.len() < TAG_LEN {
        Err(VaultError::Decryption)
    } else {
        match aes_256_gcm_open(key, nonce, sealed) {
            Some(plaintext) => if plaintext.len() + TAG_LEN == sealed.len() {
                Ok(plaintext)
            } else {
                Err(VaultError::Decryption)
            },
            None => Err(VaultError::Decryption),
        }
    }
}

/// Seals `plaintext` under `key` and the given `nonce`.
///
/// The result is [`seal_spec`]. Sealed bytes are 16 bytes longer than the
/// plaintext, and opening them under the same key and nonce gives the
/// plaintext back.
pub fn seal_with_nonce(key: &[u8], nonce: &[u8], plaintext: &[u8]) -> (r: Result<
    Vec<u8>,
    VaultError,
>)
    ensures
        match r {
            Ok(sealed) => {
                &&& seal_spec(key@, nonce@, plaintext@) == Ok::<Seq<u8>, VaultError>(sealed@)
                &&& sealed@.len() == plaintext@.len() + TAG_LEN
                &&& nonce@.len() == NONCE_LEN
                &&& open_spec(key@, sealed@, nonce@) == Ok::<Seq<u8>, VaultError>(plaintext@)
            },
            Err(e) => seal_spec(key@, nonce@, plaintext@) == Err::<Seq<u8>, VaultError>(e),
        },
{
    if key.len() != KEY_LEN {
        return Err(VaultError::Key);
    }
    let mut data = vstd::slice::slice_to_vec(plaintext);
    match seal_in_place(key, nonce, &mut data) {
        Ok(()) => Ok(data),
        Err(_) => Err(VaultError::Encryption),
    }
}

/// Opens `sealed` under `key` and `nonce`. The result is [`open_spec`]; a
/// failure is always returned, never raised.
pub fn open_with_nonce(key: &[u8], sealed: &[u8], nonce: &[u8]) -> (r: Result<Vec<u8>, VaultError>)
    ensures
        match r {
            Ok(plaintext) => open_spec(key@, sealed@, nonce@) == Ok::<Seq<u8>, VaultError>(
                plaintext@,
            ) && plaintext@.len() + TAG_LEN == sealed@.len(),
            Err(e) => open_spec(key@, sealed@, nonce@) == Err::<Seq<u8>, VaultError>(e),
        },
{
    if key.len() != KEY_LEN || nonce.len() != NONCE_LEN || sealed.len() < TAG_LEN {
        return Err(VaultError::Decryption);
    }
    match open_sealed(key, nonce, sealed) {
        Ok(plaintext) => Ok(plaintext),
        Err(_) => Err(VaultError::Decryption),
    }
}

} // verus!
