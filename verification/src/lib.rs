//! Authenticated symmetric encryption of opaque byte payloads under a single
//! long-term secret key.
//!
//! A caller-supplied key string is normalized into exactly 32 key bytes
//! ([`keys`]), and plaintext is sealed with AES-256-GCM under a fresh random
//! nonce into a self-contained blob `nonce || ciphertext || tag` ([`cipher`]).

pub mod cipher;
pub mod errors;
pub mod keys;
