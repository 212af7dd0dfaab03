use messenger_crypto::CryptoError;
use messenger_crypto::decrypt_aes_key_with_rsa;
use messenger_crypto::decrypt_message_with_aes;
use messenger_crypto::encrypt_aes_key_with_rsa;
use messenger_crypto::encrypt_message_with_aes;
use messenger_crypto::generate_aes_key;
use messenger_crypto::generate_rsa_key_pair;

fn b64(bytes: &[u8]) -> String {
    base64::Engine::encode(&base64::engine::general_purpose::STANDARD, bytes)
}

fn unb64(text: &str) -> Vec<u8> {
    base64::Engine::decode(&base64::engine::general_purpose::STANDARD, text).unwrap()
}

// A small throwaway RSA key: quick to make, and wrong for every ciphertext
// wrapped under any other key.
fn small_rsa_private_pem() -> String {
    let sk = rsa::RsaPrivateKey::new(&mut rand::rngs::OsRng, 1024).unwrap();
    rsa::pkcs1::EncodeRsaPrivateKey::to_pkcs1_pem(&sk, rsa::pkcs1::LineEnding::LF)
        .unwrap()
        .to_string()
}

#[test]
fn tampered_ciphertext_bits_fail_authentication() {
    let key = generate_aes_key();
    let env = encrypt_message_with_aes("attack at dawn", &key).unwrap();
    let sealed = unb64(&env.ciphertext);
    for i in 0..sealed.len() {
        for bit in 0..8 {
            let mut tampered = sealed.clone();
            tampered[i] ^= 1u8 << bit;
            let r = decrypt_message_with_aes(&env.iv, &b64(&tampered), &key);
            assert!(matches!(r, Err(CryptoError::AuthenticationFailed)));
        }
    }
}

#[test]
fn tampered_iv_bits_fail_authentication() {
    let key = generate_aes_key();
    let env = encrypt_message_with_aes("attack at dawn", &key).unwrap();
    let iv = unb64(&env.iv);
    for i in 0..iv.len() {
        for bit in 0..8 {
            let mut tampered = iv.clone();
            tampered[i] ^= 1u8 << bit;
            let r = decrypt_message_with_aes(&b64(&tampered), &env.ciphertext, &key);
            assert!(matches!(r, Err(CryptoError::AuthenticationFailed)));
        }
    }
}

#[test]
fn wrong_key_fails_authentication() {
    let key = generate_aes_key();
    let other = generate_aes_key();
    let env = encrypt_message_with_aes("for one key only", &key).unwrap();
    let r = decrypt_message_with_aes(&env.iv, &env.ciphertext, &other);
    assert!(matches!(r, Err(CryptoError::AuthenticationFailed)));
}

#[test]
fn oversize_key_wrap_fails_with_size_limit() {
    let kp = generate_rsa_key_pair().unwrap();
    let too_long = b64(&[0xABu8; 191]);
    let r = encrypt_aes_key_with_rsa(&too_long, &kp.public_key_pem);
    assert!(matches!(r, Err(CryptoError::SizeLimitExceeded)));
    let at_limit = b64(&[0xABu8; 190]);
    assert!(encrypt_aes_key_with_rsa(&at_limit, &kp.public_key_pem).is_ok());
}

#[test]
fn malformed_base64_is_invalid_encoding() {
    let key = generate_aes_key();
    assert!(matches!(
        encrypt_message_with_aes("hi", "#### not base64 ####"),
        Err(CryptoError::InvalidEncoding)
    ));
    assert!(matches!(
        decrypt_message_with_aes("!!", &b64(b"x"), &key),
        Err(CryptoError::InvalidEncoding)
    ));
    // the base64 text is rejected before the key text is even read
    assert!(matches!(
        encrypt_aes_key_with_rsa("not*base64", "unused"),
        Err(CryptoError::InvalidEncoding)
    ));
    assert!(matches!(
        decrypt_aes_key_with_rsa("not*base64", "unused"),
        Err(CryptoError::InvalidEncoding)
    ));
}

#[test]
fn non_canonical_base64_is_invalid_encoding() {
    let key = generate_aes_key();
    // seven symbols: no padded base64 text has this length
    let r = decrypt_message_with_aes("AAAAAAA", &b64(b"x"), &key);
    assert!(matches!(r, Err(CryptoError::InvalidEncoding)));
    // set trailing bits: decodes to one byte only non-canonically
    let r = decrypt_message_with_aes("AB==", &b64(b"x"), &key);
    assert!(matches!(r, Err(CryptoError::InvalidEncoding)));
}

#[test]
fn short_key_is_invalid_key_length() {
    let short = b64(&[1u8; 16]);
    assert!(matches!(
        encrypt_message_with_aes("hi", &short),
        Err(CryptoError::InvalidKeyLength)
    ));
    assert!(matches!(
        decrypt_message_with_aes(&b64(&[0u8; 12]), &b64(b"x"), &short),
        Err(CryptoError::InvalidKeyLength)
    ));
}

#[test]
fn short_iv_is_invalid_nonce_length() {
    let key = generate_aes_key();
    let r = decrypt_message_with_aes(&b64(&[0u8; 8]), &b64(b"xxxxxxxxxxxxxxxxx"), &key);
    assert!(matches!(r, Err(CryptoError::InvalidNonceLength)));
}

#[test]
fn malformed_pem_is_invalid_key_format() {
    let key = generate_aes_key();
    assert!(matches!(
        encrypt_aes_key_with_rsa(&key, "not a pem at all"),
        Err(CryptoError::InvalidKeyFormat)
    ));
    assert!(matches!(
        decrypt_aes_key_with_rsa(&b64(&[0u8; 256]), "not a pem at all"),
        Err(CryptoError::InvalidKeyFormat)
    ));
}

#[test]
fn garbage_rsa_ciphertext_fails_authentication() {
    let pem = small_rsa_private_pem();
    let r = decrypt_aes_key_with_rsa(&b64(&[0x5Au8; 128]), &pem);
    assert!(matches!(r, Err(CryptoError::AuthenticationFailed)));
}

#[test]
fn unwrap_with_wrong_private_key_fails_authentication() {
    let kp = generate_rsa_key_pair().unwrap();
    let key = generate_aes_key();
    let wrapped = encrypt_aes_key_with_rsa(&key, &kp.public_key_pem).unwrap();
    let r = decrypt_aes_key_with_rsa(&wrapped, &small_rsa_private_pem());
    assert!(matches!(r, Err(CryptoError::AuthenticationFailed)));
}

#[test]
fn non_utf8_plaintext_reported() {
    let key_bytes = [1u8; 32];
    let nonce_bytes = [2u8; 12];
    let cipher = <aes_gcm::Aes256Gcm as aes_gcm::KeyInit>::new(
        aes_gcm::Key::<aes_gcm::Aes256Gcm>::from_slice(&key_bytes),
    );
    let sealed = aes_gcm::aead::Aead::encrypt(
        &cipher,
        aes_gcm::Nonce::from_slice(&nonce_bytes),
        [0xFFu8, 0xFE, 0x01].as_slice(),
    )
    .unwrap();
    let r = decrypt_message_with_aes(&b64(&nonce_bytes), &b64(&sealed), &b64(&key_bytes));
    assert!(matches!(r, Err(CryptoError::InvalidUtf8)));
}
