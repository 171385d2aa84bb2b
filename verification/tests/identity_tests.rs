use circles_identity::identity::create_identity;
use circles_identity::identity::derive_identifier;
use circles_identity::identity::generate_rsa_keypair;
use circles_identity::identity::public_key_to_jwk;
use circles_identity::identity::encrypt_private_key;
use circles_identity::identity::recover_private_key;
use circles_identity::identity::unwrap_private_key;
use circles_identity::identity::wrap_private_key;
use circles_identity::identity::Identity;
use circles_identity::identity::IdentityError;

use base64::Engine;

fn decode_std(text: &str) -> Vec<u8> {
    base64::engine::general_purpose::STANDARD
        .decode(text)
        .expect("field must be valid base64")
}

fn is_valid_did(s: &str) -> bool {
    let rest = match s.strip_prefix("did:fan:") {
        Some(r) => r,
        None => return false,
    };
    rest.len() == 32 && rest.chars().all(|c| c.is_ascii_hexdigit() && !c.is_ascii_uppercase())
}

fn make_identity(name: &str, password: &str) -> Identity {
    create_identity(name.to_string(), password.to_string()).expect("creation must succeed")
}

#[test]
fn identifier_is_deterministic_and_exact() {
    let pem = "hello world";
    let a = derive_identifier(pem);
    let b = derive_identifier(pem);
    assert_eq!(a, b);
    let expected = format!("did:fan:{:x}", md5::compute(pem.as_bytes()));
    assert_eq!(a, expected);
    assert_eq!(a, "did:fan:5eb63bbbe01eeed093cb22bb8f5acdc3");
    assert!(is_valid_did(&a));
}

#[test]
fn wrap_then_unwrap_returns_plaintext() {
    let plaintext = b"a small secret that is not block aligned";
    let salt: [u8; 8] = [1, 2, 3, 4, 5, 6, 7, 8];
    let iv: [u8; 16] = [9; 16];
    let (ct_b64, salt_b64, iv_b64) = wrap_private_key(plaintext, "pw", &salt, &iv);
    assert_eq!(decode_std(&salt_b64), salt.to_vec());
    assert_eq!(decode_std(&iv_b64), iv.to_vec());
    let ct = decode_std(&ct_b64);
    assert_eq!(ct.len() % 16, 0);
    assert_eq!(ct.len(), (plaintext.len() / 16 + 1) * 16);

    // the same inputs wrap to the same ciphertext
    let (ct2_b64, _, _) = wrap_private_key(plaintext, "pw", &salt, &iv);
    assert_eq!(ct_b64, ct2_b64);

    let back = unwrap_private_key(&ct, "pw", &salt, &iv).expect("unwrap must succeed");
    assert_eq!(back, plaintext.to_vec());

    let recovered = recover_private_key(&ct_b64, "pw", &salt_b64, &iv_b64)
        .expect("recovery must succeed");
    assert_eq!(recovered, plaintext.to_vec());
}

#[test]
fn wrap_matches_independent_derivation() {
    let plaintext = b"0123456789abcdef";
    let salt: [u8; 8] = [7; 8];
    let iv: [u8; 16] = [3; 16];
    let (ct_b64, _, _) = wrap_private_key(plaintext, "passphrase", &salt, &iv);

    let mut key = [0u8; 32];
    pbkdf2::pbkdf2::<hmac::Hmac<sha2::Sha256>>(b"passphrase", &salt, 65536, &mut key)
        .expect("derivation must succeed");
    let enc = <cbc::Encryptor<aes::Aes256> as cbc::cipher::KeyIvInit>::new_from_slices(&key, &iv)
        .expect("key and iv have the right lengths");
    let expected_ct = cbc::cipher::BlockEncryptMut::encrypt_padded_vec_mut::<
        cbc::cipher::block_padding::Pkcs7,
    >(enc, plaintext);
    assert_eq!(decode_std(&ct_b64), expected_ct);
}

#[test]
fn created_identity_fields_are_well_formed() {
    let id = make_identity("alice", "correct horse battery staple");
    assert_eq!(id.name, "alice");
    assert!(is_valid_did(&id.identifier));
    assert_eq!(decode_std(&id.salt).len(), 8);
    assert_eq!(decode_std(&id.iv).len(), 16);
    let ct = decode_std(&id.encrypted_private_key);
    assert!(ct.len() > 0);
    assert_eq!(ct.len() % 16, 0);
}

#[test]
fn created_identity_round_trips_to_the_same_keypair() {
    let id = make_identity("bob", "hunter2 hunter2");
    let pem_bytes = recover_private_key(
        &id.encrypted_private_key,
        "hunter2 hunter2",
        &id.salt,
        &id.iv,
    )
    .expect("recovery with the right password must succeed");
    let pem_text = String::from_utf8(pem_bytes).expect("the plaintext is PEM text");
    let private_key =
        <rsa::RsaPrivateKey as rsa::pkcs8::DecodePrivateKey>::from_pkcs8_pem(&pem_text)
            .expect("the plaintext re-parses as a private key");
    let public_pem = <rsa::RsaPublicKey as rsa::pkcs8::EncodePublicKey>::to_public_key_pem(
        &private_key.to_public_key(),
        rsa::pkcs8::LineEnding::LF,
    )
    .expect("the public key encodes");
    assert_eq!(derive_identifier(&public_pem), id.identifier);
}

#[test]
fn wrong_password_never_silently_yields_the_key() {
    let id = make_identity("carol", "right password");
    let correct = recover_private_key(&id.encrypted_private_key, "right password", &id.salt, &id.iv)
        .expect("recovery with the right password must succeed");
    match recover_private_key(&id.encrypted_private_key, "wrong password", &id.salt, &id.iv) {
        Ok(bytes) => assert_ne!(bytes, correct),
        Err(e) => assert!(e.message().starts_with("Encryption error: ")),
    }
}

#[test]
fn repeated_wrapping_draws_fresh_parameters() {
    let (private_key, _public_key) = generate_rsa_keypair().expect("generation must succeed");
    let (ct_a, salt_a, iv_a) =
        encrypt_private_key(&private_key, "same password").expect("wrapping must succeed");
    let (ct_b, salt_b, iv_b) =
        encrypt_private_key(&private_key, "same password").expect("wrapping must succeed");
    assert_ne!(salt_a, salt_b);
    assert_ne!(iv_a, iv_b);
    assert_ne!(ct_a, ct_b);
}

#[test]
fn repeated_generation_draws_fresh_keypairs() {
    let (_private_a, public_a) = generate_rsa_keypair().expect("generation must succeed");
    let (_private_b, public_b) = generate_rsa_keypair().expect("generation must succeed");
    assert_ne!(
        rsa::traits::PublicKeyParts::n(&public_a),
        rsa::traits::PublicKeyParts::n(&public_b)
    );
    // different public keys give different identifiers
    let jwk_a = public_key_to_jwk(&public_a);
    let jwk_b = public_key_to_jwk(&public_b);
    assert_ne!(jwk_a, jwk_b);
}

#[test]
fn exported_jwk_matches_the_public_key() {
    let (_private_key, public_key) = generate_rsa_keypair().expect("generation must succeed");
    let jwk = public_key_to_jwk(&public_key);
    let value: serde_json::Value = serde_json::from_str(&jwk).expect("the JWK parses as JSON");
    assert_eq!(value["kty"], serde_json::Value::String("RSA".to_string()));
    let n_text = value["n"].as_str().expect("n is a string");
    let e_text = value["e"].as_str().expect("e is a string");
    for field in [n_text, e_text] {
        assert!(!field.contains('+') && !field.contains('/') && !field.contains('='));
    }
    let n_bytes = base64::engine::general_purpose::URL_SAFE_NO_PAD
        .decode(n_text)
        .expect("n is valid base64url");
    let e_bytes = base64::engine::general_purpose::URL_SAFE_NO_PAD
        .decode(e_text)
        .expect("e is valid base64url");
    assert_eq!(n_bytes, rsa::traits::PublicKeyParts::n(&public_key).to_bytes_be());
    assert_eq!(e_bytes, rsa::traits::PublicKeyParts::e(&public_key).to_bytes_be());
}

#[test]
fn error_messages_name_the_stage() {
    let g = IdentityError::KeyGeneration("boom".to_string());
    assert_eq!(g.message(), "Key generation error: boom");
    let e = IdentityError::Encryption("bad pad".to_string());
    assert_eq!(e.message(), "Encryption error: bad pad");
}

#[test]
fn recovery_rejects_malformed_fields() {
    let err = recover_private_key("!!!", "pw", "AAAAAAAAAAA=", "AAAAAAAAAAAAAAAAAAAAAA==")
        .expect_err("a non-base64 ciphertext must be rejected");
    assert!(err.message().starts_with("Encryption error: "));
    let err = recover_private_key("AAAAAAAAAAAAAAAAAAAAAA==", "pw", "c2FsdA==", "c2hvcnQ=")
        .expect_err("a short initialization vector must be rejected");
    assert!(err.message().starts_with("Encryption error: "));
}
