//! The authenticated cipher: AES-256-GCM sealing and opening of byte
//! payloads, framed as `nonce (12 bytes) || ciphertext || tag (16 bytes)`.
//!
//! Encryption draws a fresh 12-byte nonce from the operating system's secure
//! random source for every call; decryption parses the frame and opens the
//! remainder, collapsing every authentication sub-cause into one error.

use vstd::prelude::*;
use vstd::string::StringSliceAdditionalSpecFns;

use crate::errors::CryptoError;
use crate::keys::{normalized_key, parse_key};

verus! {

/// What AES-256-GCM sealing returns for (key, nonce, plaintext): the
/// ciphertext followed by the 16-byte authentication tag. A function of its
/// three arguments alone.
pub uninterp spec fn aes256_gcm_seal(key: Seq<u8>, nonce: Seq<u8>, plaintext: Seq<u8>) -> Seq<u8>;

/// What AES-256-GCM opening returns for (key, nonce, data): the recovered
/// plaintext, or `None` when the data does not authenticate. A function of
/// its three arguments alone.
pub uninterp spec fn aes256_gcm_open(key: Seq<u8>, nonce: Seq<u8>, data: Seq<u8>) -> Option<
    Seq<u8>,
>;

/// `blob` is a well-framed sealing of `plaintext` under `key`: a 12-byte
/// nonce, the equally long ciphertext, and the 16-byte tag, and opening it
/// under the same key and nonce gives the plaintext back.
pub open spec fn is_encryption_of(key: Seq<u8>, plaintext: Seq<u8>, blob: Seq<u8>) -> bool {
    &&& blob.len() == plaintext.len() + 28
    &&& blob.skip(12) == aes256_gcm_seal(key, blob.take(12), plaintext)
    &&& aes256_gcm_open(key, blob.take(12), blob.skip(12)) == Some(plaintext)
}

/// What decrypting `blob` under 32 key bytes yields: `None` when the blob
/// cannot even hold a nonce, or when the AEAD open rejects the remainder.
pub open spec fn decryption_of(key: Seq<u8>, blob: Seq<u8>) -> Option<Seq<u8>> {
    if blob.len() < 12 {
        None
    } else {
        aes256_gcm_open(key, blob.take(12), blob.skip(12))
    }
}

/// Relies on `aes_gcm::Aes256Gcm` through `aead::Aead::encrypt`:
/// deterministic in (key, nonce, plaintext); returns the ciphertext (as long
/// as the plaintext) followed by the 16-byte tag; succeeds whenever the
/// plaintext is within the cipher's 2^36-byte counter limit; and, per AEAD
/// correctness, decrypting the result under the same key and nonce returns
/// the original plaintext.
#[verifier::external_body]
fn aead_seal(key: &[u8], nonce: &[u8], plaintext: &[u8]) -> (r: Vec<u8>)
    requires
        key@.len() == 32,
        nonce@.len() == 12,
        plaintext@.len() <= 0x10_0000_0000,
    ensures
        r@ == aes256_gcm_seal(key@, nonce@, plaintext@),
        r@.len() == plaintext@.len() + 16,
        aes256_gcm_open(key@, nonce@, r@) == Some(plaintext@),
{
    let cipher = <aes_gcm::Aes256Gcm as aes_gcm::KeyInit>::new_from_slice(key).unwrap();
    aes_gcm::aead::Aead::encrypt(&cipher, aes_gcm::Nonce::from_slice(nonce), plaintext).unwrap()
}

/// Relies on `aes_gcm::Aes256Gcm` through `aead::Aead::decrypt`:
/// deterministic in (key, nonce, data); returns the plaintext — 16 bytes
/// shorter than the data, whose tail the tag was — exactly when the data
/// carries a valid tag over its ciphertext, and fails otherwise (tampering,
/// truncation, wrong key).
#[verifier::external_body]
fn aead_open(key: &[u8], nonce: &[u8], data: &[u8]) -> (r: Option<Vec<u8>>)
    requires
        key@.len() == 32,
        nonce@.len() == 12,
    ensures
        r matches Some(pt) ==> aes256_gcm_open(key@, nonce@, data@) == Some(pt@) && pt@.len() + 16
            == data@.len(),
        r is None ==> aes256_gcm_open(key@, nonce@, data@) is None,
{
    let cipher = <aes_gcm::Aes256Gcm as aes_gcm::KeyInit>::new_from_slice(key).unwrap();
    match aes_gcm::aead::Aead::decrypt(&cipher, aes_gcm::Nonce::from_slice(nonce), data) {
        Ok(v) => Some(v),
        Err(_) => None,
    }
}

/// Relies on `rand::rngs::OsRng` through `RngCore::fill_bytes`: 12 bytes from
/// the operating system's cryptographically secure random source. Nothing is
/// assumed of their values.
#[verifier::external_body]
fn random_nonce() -> (r: Vec<u8>)
    ensures
        r@.len() == 12,
{
    let mut bytes = [0u8; 12];
    rand::RngCore::fill_bytes(&mut rand::rngs::OsRng, &mut bytes);
    bytes.to_vec()
}

/// Seal `plaintext` under the normalized key with a fresh random nonce; the
/// result is `nonce || ciphertext || tag`, and decrypting it under the same
/// key recovers the plaintext exactly.
///
/// The length bound is the cipher's own counter limit of 2^36 bytes.
pub fn encrypt_bytes(key: &str, plaintext: &[u8]) -> (r: Result<Vec<u8>, CryptoError>)
    requires
        plaintext@.len() <= 0x10_0000_0000,
    ensures
        r matches Ok(blob) ==> normalized_key(key.spec_bytes()) matches Some(kb)
            && is_encryption_of(kb, plaintext@, blob@) && decryption_of(kb, blob@) == Some(
            plaintext@,
        ),
        r matches Err(e) ==> e == CryptoError::KeyFormat && normalized_key(
            key.spec_bytes(),
        ) is None,
        r is Ok <==> normalized_key(key.spec_bytes()) is Some,
{
    let key_bytes = match parse_key(key) {
        Ok(k) => k,
        Err(e) => {
            return Err(e);
        },
    };
    let mut blob = random_nonce();
    let ghost nonce = blob@;
    let mut sealed = aead_seal(key_bytes.as_slice(), blob.as_slice(), plaintext);
    let ghost ct = sealed@;
    blob.append(&mut sealed);
    proof {
        assert(blob@.take(12) =~= nonce);
        assert(blob@.skip(12) =~= ct);
    }
    Ok(blob)
}

/// Parse `blob` as `nonce || ciphertext || tag` and open it under the
/// normalized key.
///
/// A blob shorter than 12 bytes is rejected as a framing error before the key
/// is even looked at; a key that normalizes to nothing is a key-format error;
/// and every way the AEAD open can reject the data is surfaced as one
/// authentication error, so that the caller cannot distinguish tampering from
/// truncation from a wrong key.
pub fn decrypt_bytes(key: &str, blob: &[u8]) -> (r: Result<Vec<u8>, CryptoError>)
    ensures
        r matches Ok(pt) ==> blob@.len() == pt@.len() + 28,
        blob@.len() < 12 ==> (r matches Err(e) && e == CryptoError::Framing),
        blob@.len() >= 12 && normalized_key(key.spec_bytes()) is None ==> (r matches Err(e) && e
            == CryptoError::KeyFormat),
        blob@.len() >= 12 ==> (normalized_key(key.spec_bytes()) matches Some(kb) ==> {
            &&& r matches Ok(pt) ==> decryption_of(kb, blob@) == Some(pt@)
            &&& (r is Ok <==> decryption_of(kb, blob@) is Some)
            &&& r matches Err(e) ==> e == CryptoError::Authentication && decryption_of(
                kb,
                blob@,
            ) is None
        }),
{
    if blob.len() < 12 {
        return Err(CryptoError::Framing);
    }
    let key_bytes = match parse_key(key) {
        Ok(k) => k,
        Err(e) => {
            return Err(e);
        },
    };
    let nonce = vstd::slice::slice_subrange(blob, 0, 12);
    let rest = vstd::slice::slice_subrange(blob, 12, blob.len());
    proof {
        assert(nonce@ =~= blob@.take(12));
        assert(rest@ =~= blob@.skip(12));
    }
    match aead_open(key_bytes.as_slice(), nonce, rest) {
        Some(pt) => Ok(pt),
        None => Err(CryptoError::Authentication),
    }
}

/// Law: a blob that is an encryption of `plaintext` under `key` decrypts,
/// under the same key, to exactly that plaintext — for every plaintext,
/// the empty one included, and every 32-byte key.
pub proof fn lemma_round_trip(key: Seq<u8>, plaintext: Seq<u8>, blob: Seq<u8>)
    requires
        is_encryption_of(key, plaintext, blob),
    ensures
        decryption_of(key, blob) == Some(plaintext),
{
}

} // verus!
