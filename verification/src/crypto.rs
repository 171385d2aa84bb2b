//! Trusted bindings to the cryptographic primitives of outside crates:
//! RSA key generation and encoding (`rsa`), the MD5 digest (`md5`),
//! PBKDF2-HMAC-SHA256 (`pbkdf2`), AES-256-CBC with PKCS7 padding
//! (`aes`/`cbc`) and the process's random source (`rand`). Each wrapper's
//! contract states what the outside crate's source shows of the call;
//! digests, derived keys and ciphertexts are named as uninterpreted
//! functions of their inputs.

use vstd::prelude::*;

verus! {

use cbc::cipher::BlockDecryptMut;
use cbc::cipher::BlockEncryptMut;
use cbc::cipher::KeyIvInit;

#[verifier::external_type_specification]
#[verifier::external_body]
pub struct ExRsaPrivateKey(rsa::RsaPrivateKey);

#[verifier::external_type_specification]
#[verifier::external_body]
pub struct ExRsaPublicKey(rsa::RsaPublicKey);

/// The MD5 digest of a byte sequence; always sixteen bytes.
pub uninterp spec fn md5_of(data: Seq<u8>) -> Seq<u8>;

/// The PBKDF2-HMAC-SHA256 derivation of a 32-byte key from a password,
/// a salt and an iteration count.
pub uninterp spec fn pbkdf2_sha256_of(password: Seq<u8>, salt: Seq<u8>, rounds: u32) -> Seq<u8>;

/// The AES-256-CBC encryption, with PKCS7 padding, of a plaintext under a
/// 32-byte key and a 16-byte initialization vector.
pub uninterp spec fn aes256_cbc_pkcs7_enc(key: Seq<u8>, iv: Seq<u8>, plaintext: Seq<u8>) -> Seq<
    u8,
>;

pub assume_specification<T>[ rand::random::<T> ]() -> (r: T)
    where
        rand::distributions::Standard: rand::distributions::Distribution<T>,
;

/// Relies on `rsa::RsaPrivateKey::new` with `rand::rngs::OsRng`: draws a
/// fresh keypair of the asked bit size from the operating system's secure
/// random source, or reports the generation failure.
#[verifier::external_body]
pub fn rsa_generate_private_key(bits: usize) -> (r: Result<rsa::RsaPrivateKey, String>) {
    rsa::RsaPrivateKey::new(&mut rand::rngs::OsRng, bits).map_err(|e| e.to_string())
}

/// Relies on `rsa::RsaPrivateKey::to_public_key`: the public half of the
/// keypair.
#[verifier::external_body]
pub fn rsa_public_key_of(private_key: &rsa::RsaPrivateKey) -> (r: rsa::RsaPublicKey) {
    private_key.to_public_key()
}

/// Relies on `rsa::pkcs8::EncodePrivateKey::to_pkcs8_pem` with `\n` line
/// endings: the PKCS#8 PEM text of the private key, as bytes, or the
/// serialization failure.
#[verifier::external_body]
pub fn rsa_private_key_pem(private_key: &rsa::RsaPrivateKey) -> (r: Result<Vec<u8>, String>) {
    match rsa::pkcs8::EncodePrivateKey::to_pkcs8_pem(private_key, rsa::pkcs8::LineEnding::LF) {
        Ok(pem) => Ok(pem.as_bytes().to_vec()),
        Err(e) => Err(e.to_string()),
    }
}

/// Relies on `rsa::pkcs8::EncodePublicKey::to_public_key_pem` with `\n`
/// line endings: the SPKI PEM text of the public key, or the
/// serialization failure.
#[verifier::external_body]
pub fn rsa_public_key_pem(public_key: &rsa::RsaPublicKey) -> (r: Result<String, String>) {
    match rsa::pkcs8::EncodePublicKey::to_public_key_pem(public_key, rsa::pkcs8::LineEnding::LF) {
        Ok(pem) => Ok(pem),
        Err(e) => Err(e.to_string()),
    }
}

/// Relies on `rsa::traits::PublicKeyParts::n` and `BigUint::to_bytes_be`:
/// the big-endian bytes of the modulus.
#[verifier::external_body]
pub fn rsa_modulus_bytes(public_key: &rsa::RsaPublicKey) -> (r: Vec<u8>) {
    rsa::traits::PublicKeyParts::n(public_key).to_bytes_be()
}

/// Relies on `rsa::traits::PublicKeyParts::e` and `BigUint::to_bytes_be`:
/// the big-endian bytes of the public exponent.
#[verifier::external_body]
pub fn rsa_exponent_bytes(public_key: &rsa::RsaPublicKey) -> (r: Vec<u8>) {
    rsa::traits::PublicKeyParts::e(public_key).to_bytes_be()
}

/// Relies on `md5::compute`: the MD5 digest, sixteen bytes, a function of
/// the input alone.
#[verifier::external_body]
pub fn md5_digest(data: &[u8]) -> (r: Vec<u8>)
    ensures
        r@ == md5_of(data@),
        r@.len() == 16,
{
    md5::compute(data).0.to_vec()
}

/// Relies on `pbkdf2::pbkdf2_hmac` with SHA-256: fills a 32-byte key by
/// iterated HMAC-SHA256, a function of password, salt and round count
/// alone.
#[verifier::external_body]
pub fn pbkdf2_sha256(password: &[u8], salt: &[u8], rounds: u32) -> (r: Vec<u8>)
    ensures
        r@ == pbkdf2_sha256_of(password@, salt@, rounds),
        r@.len() == 32,
{
    let mut key = [0u8; 32];
    pbkdf2::pbkdf2_hmac::<sha2::Sha256>(password, salt, rounds, &mut key);
    key.to_vec()
}

/// Relies on `cbc::Encryptor<aes::Aes256>` and
/// `cipher::BlockEncryptMut::encrypt_padded_vec_mut` with PKCS7 padding:
/// the ciphertext is a function of key, initialization vector and
/// plaintext alone, and PKCS7 pads to the next whole 16-byte block.
#[verifier::external_body]
pub fn aes256_cbc_encrypt(key: &[u8], iv: &[u8], plaintext: &[u8]) -> (r: Vec<u8>)
    requires
        key@.len() == 32,
        iv@.len() == 16,
    ensures
        r@ == aes256_cbc_pkcs7_enc(key@, iv@, plaintext@),
        r@.len() == 16 * (plaintext@.len() / 16 + 1),
{
    match cbc::Encryptor::<aes::Aes256>::new_from_slices(key, iv) {
        Ok(enc) => enc.encrypt_padded_vec_mut::<cbc::cipher::block_padding::Pkcs7>(plaintext),
        Err(_) => Vec::new(),
    }
}

/// What decryption gives back: any ciphertext that the paired encryptor
/// produced under the same key and initialization vector yields exactly
/// its plaintext.
pub open spec fn aes256_cbc_decrypt_post(
    key: Seq<u8>,
    iv: Seq<u8>,
    ciphertext: Seq<u8>,
    r: Result<Vec<u8>, ()>,
) -> bool {
    forall|pt: Seq<u8>|
        ciphertext == #[trigger] aes256_cbc_pkcs7_enc(key, iv, pt) ==> (r matches Ok(v) && v@ == pt)
}

/// Relies on `cbc::Decryptor<aes::Aes256>` and
/// `cipher::BlockDecryptMut::decrypt_padded_vec_mut` with PKCS7 padding:
/// a ciphertext that the paired encryptor produced under the same key and
/// initialization vector decrypts back to its plaintext; a missing or
/// malformed padding is reported, never ignored.
#[verifier::external_body]
pub fn aes256_cbc_decrypt(key: &[u8], iv: &[u8], ciphertext: &[u8]) -> (r: Result<Vec<u8>, ()>)
    requires
        key@.len() == 32,
        iv@.len() == 16,
    ensures
        aes256_cbc_decrypt_post(key@, iv@, ciphertext@, r),
{
    match cbc::Decryptor::<aes::Aes256>::new_from_slices(key, iv) {
        Ok(dec) => dec.decrypt_padded_vec_mut::<cbc::cipher::block_padding::Pkcs7>(
            ciphertext,
        ).map_err(|_| ()),
        Err(_) => Err(()),
    }
}

} // verus!
