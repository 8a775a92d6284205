use vstd::prelude::*;

verus! {

/// The failure modes of key normalization and authenticated
/// encryption/decryption.
///
/// Authentication failures deliberately collapse tampering, truncation and
/// wrong-key sub-causes into one variant, so that a caller (or an attacker
/// observing a caller) cannot learn why a blob was rejected.
#[derive(Clone, Copy, Debug, PartialEq, Eq, Structural)]
pub enum CryptoError {
    /// The key string does not yield exactly 32 bytes in any accepted
    /// encoding (raw 32-byte text, hex, or standard base64).
    KeyFormat,
    /// The blob is too short to contain even the 12-byte nonce.
    Framing,
    /// The AEAD open rejected the data: tampered ciphertext, truncated or
    /// corrupted tag, or a wrong key.
    Authentication,
}

impl CryptoError {
    /// A human-readable description of the error.
    pub fn message(&self) -> &'static str {
        match self {
            CryptoError::KeyFormat => "key must be a 32-byte value in hex, base64, or raw form",
            CryptoError::Framing => "ciphertext blob too short to contain a nonce",
            CryptoError::Authentication => "decryption failed",
        }
    }
}

} // verus!
