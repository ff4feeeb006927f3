//! An authenticated-encryption gateway: it seals text into hex-encoded
//! ChaCha20-Poly1305 envelopes and opens such envelopes again.

pub mod hex_text;
pub mod aead;
pub mod vault;
