//! Password-protected identity creation.
//!
//! Generates a fresh RSA keypair, derives a content-addressed identifier
//! from the public key, wraps the private key under a password-derived
//! symmetric key (PBKDF2-HMAC-SHA256 + AES-256-CBC/PKCS7), and exports the
//! public key as a JWK. The byte-level codecs (base64, base64url, hex, JSON
//! assembly) are verified here; the cryptographic primitives are called in
//! outside crates through trusted wrappers.

pub mod codec;
pub mod crypto;
pub mod identity;
