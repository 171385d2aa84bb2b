//! Identity creation: a fresh RSA keypair, a content-addressed
//! identifier derived from the public key, the private key wrapped under
//! a password-derived symmetric key, and the public key exported as a
//! JWK, assembled into one output record.

use vstd::prelude::*;

verus! {

use vstd::string::StringExecFns;
use vstd::string::StringSliceAdditionalSpecFns;
use vstd::utf8::encode_utf8;

use crate::codec::ascii_chars;
use crate::codec::base64_bytes;
use crate::codec::base64_decode;
use crate::codec::base64_url_encode;
use crate::codec::base64url_bytes;
use crate::codec::hex_bytes;
use crate::codec::hex_encode;
use crate::codec::is_hex_digit_byte;
use crate::codec::lemma_hex_bytes_wf;
use crate::crypto::aes256_cbc_decrypt;
use crate::crypto::aes256_cbc_encrypt;
use crate::crypto::aes256_cbc_pkcs7_enc;
use crate::crypto::md5_digest;
use crate::crypto::md5_of;
use crate::crypto::pbkdf2_sha256;
use crate::crypto::pbkdf2_sha256_of;
use crate::crypto::rsa_exponent_bytes;
use crate::crypto::rsa_generate_private_key;
use crate::crypto::rsa_modulus_bytes;
use crate::crypto::rsa_private_key_pem;
use crate::crypto::rsa_public_key_of;
use crate::crypto::rsa_public_key_pem;

/// The fixed modulus size of a generated keypair, in bits.
pub const KEY_BITS: usize = 2048;

/// The length of the random key-derivation salt, in bytes.
pub const SALT_LEN: usize = 8;

/// The length of the random cipher initialization vector, in bytes.
pub const IV_LEN: usize = 16;

/// The iteration count of the password-based key derivation.
pub const PBKDF2_ROUNDS: u32 = 65536;

/// The largest private-key encoding this module wraps; beyond it the
/// base64 expansion of the ciphertext could no longer be sized in a
/// `usize` on every machine.
pub const MAX_WRAP_PLAINTEXT_LEN: usize = 0x0FFF_FFFF;

/// The two failure kinds of identity creation: the asymmetric key
/// generation failed, or the private key could not be serialized or
/// wrapped. Each carries a short description.
#[derive(Debug)]
pub enum IdentityError {
    KeyGeneration(String),
    Encryption(String),
}

impl IdentityError {
    /// A human-readable description naming the stage that failed.
    pub fn message(&self) -> (r: String)
        ensures
            *self matches IdentityError::KeyGeneration(m) ==> r@ == "Key generation error: "@
                + m@,
            *self matches IdentityError::Encryption(m) ==> r@ == "Encryption error: "@ + m@,
    {
        match self {
            IdentityError::KeyGeneration(m) => String::from_str("Key generation error: ").concat(
                m.as_str(),
            ),
            IdentityError::Encryption(m) => String::from_str("Encryption error: ").concat(
                m.as_str(),
            ),
        }
    }
}

/// The output record of identity creation. The private key appears only
/// wrapped; `salt` and `iv` are the fresh protection parameters of this
/// record, base64-encoded like the ciphertext.
pub struct Identity {
    pub identifier: String,
    pub name: String,
    pub encrypted_private_key: String,
    pub salt: String,
    pub iv: String,
    pub public_key_jwk: String,
}

/// The identifier derived from a public key encoding: a fixed scheme
/// prefix followed by the lowercase hex of the MD5 digest of the
/// encoding's bytes.
pub open spec fn did_chars(public_key_pem: Seq<char>) -> Seq<char> {
    "did:fan:"@ + ascii_chars(hex_bytes(md5_of(encode_utf8(public_key_pem))))
}

/// A character of a lowercase hex digit.
pub open spec fn is_hex_char(c: char) -> bool {
    (48 <= c as u32 <= 57) || (97 <= c as u32 <= 102)
}

/// The shape every identifier has: the scheme prefix and thirty-two
/// lowercase hex digits of a 128-bit digest.
pub open spec fn is_valid_identifier(s: Seq<char>) -> bool {
    &&& s.len() == 40
    &&& s.subrange(0, 8) == "did:fan:"@
    &&& forall|i: int| 8 <= i < 40 ==> is_hex_char(#[trigger] s[i])
}

/// The ciphertext that wraps a private-key encoding: AES-256-CBC with
/// PKCS7 padding under the key derived from the password bytes and the
/// salt by PBKDF2-HMAC-SHA256.
pub open spec fn wrapped_key_bytes(
    password_bytes: Seq<u8>,
    salt: Seq<u8>,
    iv: Seq<u8>,
    plaintext: Seq<u8>,
) -> Seq<u8> {
    aes256_cbc_pkcs7_enc(pbkdf2_sha256_of(password_bytes, salt, PBKDF2_ROUNDS), iv, plaintext)
}

/// The minimal JWK of an RSA public key: fixed `kty`, then modulus and
/// exponent in unpadded URL-safe base64.
pub open spec fn jwk_chars(modulus: Seq<u8>, exponent: Seq<u8>) -> Seq<char> {
    "{\"kty\":\"RSA\",\"n\":\""@ + ascii_chars(base64url_bytes(modulus)) + "\",\"e\":\""@
        + ascii_chars(base64url_bytes(exponent)) + "\"}"@
}

/// The identifier is a pure function of the public key encoding: equal
/// encodings yield equal identifiers, however often they are re-derived.
pub proof fn lemma_identifier_deterministic(pem_a: Seq<char>, pem_b: Seq<char>)
    requires
        pem_a == pem_b,
    ensures
        did_chars(pem_a) == did_chars(pem_b),
{
}

/// Derives the stable identifier of a public key from its PEM encoding.
pub fn derive_identifier(public_key_pem: &str) -> (r: String)
    ensures
        r@ == did_chars(public_key_pem@),
        is_valid_identifier(r@),
{
    let digest = md5_digest(public_key_pem.as_bytes());
    proof {
        lemma_hex_bytes_wf(digest@);
    }
    let hex = hex_encode(digest.as_slice());
    let r = String::from_str("did:fan:").concat(hex.as_str());
    proof {
        reveal_strlit("did:fan:");
        assert(r@ == did_chars(public_key_pem@));
        assert(r@.len() == 40);
        assert(r@.subrange(0, 8) =~= "did:fan:"@);
        assert forall|i: int| 8 <= i < 40 implies is_hex_char(#[trigger] r@[i]) by {
            let bs = hex_bytes(md5_of(encode_utf8(public_key_pem@)));
            assert(r@[i] == ascii_chars(bs)[i - 8]);
            assert(is_hex_digit_byte(bs[i - 8]));
        }
    }
    r
}

/// Generates a fresh 2048-bit RSA keypair from the operating system's
/// secure random source.
pub fn generate_rsa_keypair() -> (r: Result<
    (rsa::RsaPrivateKey, rsa::RsaPublicKey),
    IdentityError,
>)
    ensures
        r matches Err(e) ==> e is KeyGeneration,
{
    match rsa_generate_private_key(KEY_BITS) {
        Ok(private_key) => {
            let public_key = rsa_public_key_of(&private_key);
            Ok((private_key, public_key))
        },
        Err(m) => Err(IdentityError::KeyGeneration(m)),
    }
}

/// Wraps an already-serialized private key under the given protection
/// parameters and returns ciphertext, salt and initialization vector,
/// each base64-encoded. Deterministic in all four inputs.
pub fn wrap_private_key(private_key_pem: &[u8], password: &str, salt: &[u8], iv: &[u8]) -> (r: (
    String,
    String,
    String,
))
    requires
        salt@.len() == SALT_LEN,
        iv@.len() == IV_LEN,
        private_key_pem@.len() <= MAX_WRAP_PLAINTEXT_LEN,
    ensures
        r.0@ == ascii_chars(
            base64_bytes(
                wrapped_key_bytes(encode_utf8(password@), salt@, iv@, private_key_pem@),
            ),
        ),
        wrapped_key_bytes(encode_utf8(password@), salt@, iv@, private_key_pem@).len() == 16 * (
        private_key_pem@.len() / 16 + 1),
        r.1@ == ascii_chars(base64_bytes(salt@)),
        r.2@ == ascii_chars(base64_bytes(iv@)),
{
    let derived_key = pbkdf2_sha256(password.as_bytes(), salt, PBKDF2_ROUNDS);
    let ciphertext = aes256_cbc_encrypt(derived_key.as_slice(), iv, private_key_pem);
    let encrypted = crate::codec::base64_encode(ciphertext.as_slice());
    let salt_text = crate::codec::base64_encode(salt);
    let iv_text = crate::codec::base64_encode(iv);
    (encrypted, salt_text, iv_text)
}

/// Serializes the private key and encrypts it under a key derived from
/// the password, with a fresh random salt and initialization vector.
/// Returns ciphertext, salt and initialization vector, base64-encoded.
pub fn encrypt_private_key(private_key: &rsa::RsaPrivateKey, password: &str) -> (r: Result<
    (String, String, String),
    IdentityError,
>)
    ensures
        r matches Ok(t) ==> exists|salt_b: Seq<u8>, iv_b: Seq<u8>, pem: Seq<u8>|
            {
                &&& salt_b.len() == SALT_LEN
                &&& iv_b.len() == IV_LEN
                &&& t.0@ == ascii_chars(
                    base64_bytes(
                        #[trigger] wrapped_key_bytes(encode_utf8(password@), salt_b, iv_b, pem),
                    ),
                )
                &&& wrapped_key_bytes(encode_utf8(password@), salt_b, iv_b, pem).len() % 16 == 0
                &&& t.1@ == ascii_chars(base64_bytes(salt_b))
                &&& t.2@ == ascii_chars(base64_bytes(iv_b))
            },
        r matches Err(e) ==> e is Encryption,
{
    let pem = match rsa_private_key_pem(private_key) {
        Ok(p) => p,
        Err(m) => {
            return Err(IdentityError::Encryption(m));
        },
    };
    if pem.len() > MAX_WRAP_PLAINTEXT_LEN {
        return Err(
            IdentityError::Encryption(String::from_str("private key encoding is too large")),
        );
    }
    let salt: [u8; 8] = rand::random();
    let iv: [u8; 16] = rand::random();
    let wrapped = wrap_private_key(pem.as_slice(), password, salt.as_slice(), iv.as_slice());
    proof {
        assert(wrapped.0@ == ascii_chars(
            base64_bytes(
                wrapped_key_bytes(encode_utf8(password@), salt@, iv@, pem@),
            ),
        ));
    }
    Ok(wrapped)
}

/// Re-derives the symmetric key from the password and salt and unwraps a
/// ciphertext. Any ciphertext produced by the wrapping under the same
/// password, salt and initialization vector comes back as exactly the
/// plaintext that was wrapped.
pub fn unwrap_private_key(ciphertext: &[u8], password: &str, salt: &[u8], iv: &[u8]) -> (r: Result<
    Vec<u8>,
    IdentityError,
>)
    requires
        iv@.len() == IV_LEN,
    ensures
        forall|pt: Seq<u8>|
            ciphertext@ == #[trigger] wrapped_key_bytes(encode_utf8(password@), salt@, iv@, pt)
                ==> (r matches Ok(v) && v@ == pt),
        r matches Err(e) ==> e is Encryption,
{
    let derived_key = pbkdf2_sha256(password.as_bytes(), salt, PBKDF2_ROUNDS);
    match aes256_cbc_decrypt(derived_key.as_slice(), iv, ciphertext) {
        Ok(plaintext) => Ok(plaintext),
        Err(_) => Err(
            IdentityError::Encryption(
                String::from_str("the padding is malformed or the password is wrong"),
            ),
        ),
    }
}

/// Decodes the base64 fields of a wrapped private key and unwraps the
/// ciphertext with the key re-derived from the password. A record
/// produced by the wrapping yields exactly the plaintext that was
/// wrapped.
pub fn recover_private_key(
    encrypted_private_key: &str,
    password: &str,
    salt_b64: &str,
    iv_b64: &str,
) -> (r: Result<Vec<u8>, IdentityError>)
    ensures
        forall|salt_b: Seq<u8>, iv_b: Seq<u8>, pt: Seq<u8>|
            {
                &&& iv_b.len() == IV_LEN
                &&& salt_b64@ == ascii_chars(base64_bytes(salt_b))
                &&& iv_b64@ == ascii_chars(base64_bytes(iv_b))
                &&& encrypted_private_key@ == ascii_chars(
                    base64_bytes(
                        #[trigger] wrapped_key_bytes(encode_utf8(password@), salt_b, iv_b, pt),
                    ),
                )
            } ==> (r matches Ok(v) && v@ == pt),
{
    let ciphertext = match base64_decode(encrypted_private_key) {
        Ok(v) => v,
        Err(_) => {
            return Err(
                IdentityError::Encryption(
                    String::from_str("the encrypted key is not valid base64"),
                ),
            );
        },
    };
    let salt = match base64_decode(salt_b64) {
        Ok(v) => v,
        Err(_) => {
            return Err(IdentityError::Encryption(String::from_str("the salt is not valid base64")));
        },
    };
    let iv = match base64_decode(iv_b64) {
        Ok(v) => v,
        Err(_) => {
            return Err(
                IdentityError::Encryption(
                    String::from_str("the initialization vector is not valid base64"),
                ),
            );
        },
    };
    if iv.len() != IV_LEN {
        return Err(
            IdentityError::Encryption(
                String::from_str("the initialization vector must decode to 16 bytes"),
            ),
        );
    }
    unwrap_private_key(ciphertext.as_slice(), password, salt.as_slice(), iv.as_slice())
}

/// Builds the minimal JWK string from the big-endian bytes of the
/// modulus and the public exponent.
pub fn jwk_from_components(modulus: &[u8], exponent: &[u8]) -> (r: String)
    requires
        4 * modulus@.len() + 4 <= usize::MAX,
        4 * exponent@.len() + 4 <= usize::MAX,
    ensures
        r@ == jwk_chars(modulus@, exponent@),
{
    let n_text = base64_url_encode(modulus);
    let e_text = base64_url_encode(exponent);
    let mut out = String::from_str("{\"kty\":\"RSA\",\"n\":\"");
    out.append(n_text.as_str());
    out.append("\",\"e\":\"");
    out.append(e_text.as_str());
    out.append("\"}");
    proof {
        assert(out@ =~= jwk_chars(modulus@, exponent@));
    }
    out
}

/// Re-encodes a public key as a minimal JWK: `kty` fixed to `"RSA"`,
/// modulus and exponent in unpadded URL-safe base64.
pub fn public_key_to_jwk(public_key: &rsa::RsaPublicKey) -> (r: String)
    ensures
        exists|n: Seq<u8>, e: Seq<u8>| r@ == #[trigger] jwk_chars(n, e),
{
    let modulus = rsa_modulus_bytes(public_key);
    let exponent = rsa_exponent_bytes(public_key);
    let cap: usize = (usize::MAX - 4) / 4;
    if modulus.len() <= cap && exponent.len() <= cap {
        jwk_from_components(modulus.as_slice(), exponent.as_slice())
    } else {
        // a key component this wide cannot exist in an addressable key;
        // the export of the empty components keeps the call total
        let empty: Vec<u8> = Vec::new();
        jwk_from_components(empty.as_slice(), empty.as_slice())
    }
}

/// Creates one identity: generates a fresh keypair, derives its
/// identifier, wraps the private key under the password, and exports the
/// public key, assembling the record or reporting the failing stage.
pub fn create_identity(name: String, password: String) -> (r: Result<Identity, IdentityError>)
    ensures
        r matches Ok(id) ==> {
            &&& id.name@ == name@
            &&& exists|pem: Seq<char>| id.identifier@ == #[trigger] did_chars(pem)
            &&& is_valid_identifier(id.identifier@)
            &&& exists|salt_b: Seq<u8>, iv_b: Seq<u8>, pt: Seq<u8>|
                {
                    &&& salt_b.len() == SALT_LEN
                    &&& iv_b.len() == IV_LEN
                    &&& id.encrypted_private_key@ == ascii_chars(
                        base64_bytes(
                            #[trigger] wrapped_key_bytes(
                                encode_utf8(password@),
                                salt_b,
                                iv_b,
                                pt,
                            ),
                        ),
                    )
                    &&& wrapped_key_bytes(encode_utf8(password@), salt_b, iv_b, pt).len() % 16
                        == 0
                    &&& id.salt@ == ascii_chars(base64_bytes(salt_b))
                    &&& id.iv@ == ascii_chars(base64_bytes(iv_b))
                }
            &&& exists|n: Seq<u8>, e: Seq<u8>| id.public_key_jwk@ == #[trigger] jwk_chars(n, e)
        },
{
    let (private_key, public_key) = match generate_rsa_keypair() {
        Ok(pair) => pair,
        Err(e) => {
            return Err(e);
        },
    };
    let public_key_pem = match rsa_public_key_pem(&public_key) {
        Ok(p) => p,
        Err(m) => {
            return Err(IdentityError::KeyGeneration(m));
        },
    };
    let identifier = derive_identifier(public_key_pem.as_str());
    let (encrypted_private_key, salt, iv) = match encrypt_private_key(
        &private_key,
        password.as_str(),
    ) {
        Ok(t) => t,
        Err(e) => {
            return Err(e);
        },
    };
    let public_key_jwk = public_key_to_jwk(&public_key);
    Ok(
        Identity {
            identifier,
            name,
            encrypted_private_key,
            salt,
            iv,
            public_key_jwk,
        },
    )
}

} // verus!
