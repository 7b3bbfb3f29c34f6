//! Message-level encryption for Web Push notifications under the HTTP
//! Encrypted Content Encoding scheme (the "aesgcm" content coding).
//!
//! Given a recipient's P-256 public key and a shared authentication secret,
//! [`http_ece::HttpEce::encrypt`] encrypts a payload of at most
//! [`http_ece::MAX_PAYLOAD_LEN`] bytes into a fixed-length ciphertext,
//! together with the fresh ephemeral public key and random salt that the
//! recipient needs to derive the matching decryption key.

pub mod crypto;
pub mod error;
pub mod http_ece;
pub mod message;
