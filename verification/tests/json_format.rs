use messenger_crypto::EncryptedMessage;
use messenger_crypto::RsaKeyPair;
use messenger_crypto::encrypt_message_with_aes;
use messenger_crypto::encrypted_message_to_json;
use messenger_crypto::generate_aes_key;
use messenger_crypto::generate_rsa_key_pair;
use messenger_crypto::key_pair_to_json;

#[test]
fn key_pair_json_exact_text() {
    let kp = RsaKeyPair {
        private_key_pem: String::from("a"),
        public_key_pem: String::from("b"),
    };
    assert_eq!(
        key_pair_to_json(&kp),
        "{\"private_key_pem\":\"a\",\"public_key_pem\":\"b\"}"
    );
}

#[test]
fn envelope_json_exact_text() {
    let env = EncryptedMessage {
        iv: String::from("abc+/="),
        ciphertext: String::from("def0123="),
    };
    assert_eq!(
        encrypted_message_to_json(&env),
        "{\"iv\":\"abc+/=\",\"ciphertext\":\"def0123=\"}"
    );
}

#[test]
fn key_pair_json_escapes_like_serde_json() {
    let private = "line one\nline two\twith\ttabs\r";
    let public = "quote \" back \\ slash \u{1} \u{1f} caf\u{e9}";
    let kp = RsaKeyPair {
        private_key_pem: String::from(private),
        public_key_pem: String::from(public),
    };
    let text = key_pair_to_json(&kp);
    let parsed: serde_json::Value = serde_json::from_str(&text).unwrap();
    assert_eq!(parsed["private_key_pem"].as_str().unwrap(), private);
    assert_eq!(parsed["public_key_pem"].as_str().unwrap(), public);
    let mut fields = serde_json::Map::new();
    fields.insert(
        String::from("private_key_pem"),
        serde_json::Value::String(String::from(private)),
    );
    fields.insert(
        String::from("public_key_pem"),
        serde_json::Value::String(String::from(public)),
    );
    assert_eq!(parsed, serde_json::Value::Object(fields));
}

#[test]
fn control_characters_use_lowercase_hex_escapes() {
    let env = EncryptedMessage {
        iv: String::from("\u{1}\u{1f}\u{8}\u{c}"),
        ciphertext: String::from("x"),
    };
    assert_eq!(
        encrypted_message_to_json(&env),
        "{\"iv\":\"\\u0001\\u001f\\b\\f\",\"ciphertext\":\"x\"}"
    );
}

#[test]
fn generated_key_pair_serializes_to_parseable_json() {
    let kp = generate_rsa_key_pair().unwrap();
    let text = key_pair_to_json(&kp);
    let parsed: serde_json::Value = serde_json::from_str(&text).unwrap();
    assert_eq!(
        parsed["private_key_pem"].as_str().unwrap(),
        kp.private_key_pem
    );
    assert_eq!(parsed["public_key_pem"].as_str().unwrap(), kp.public_key_pem);
}

#[test]
fn generated_envelope_serializes_to_parseable_json() {
    let key = generate_aes_key();
    let env = encrypt_message_with_aes("boxed up", &key).unwrap();
    let text = encrypted_message_to_json(&env);
    let parsed: serde_json::Value = serde_json::from_str(&text).unwrap();
    assert_eq!(parsed["iv"].as_str().unwrap(), env.iv);
    assert_eq!(parsed["ciphertext"].as_str().unwrap(), env.ciphertext);
}
