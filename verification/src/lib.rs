mod aes;
mod codec;
mod json;
mod rsa_oaep;

use vstd::prelude::*;

verus! {

pub use aes::envelope_seals;
pub use aes::lemma_envelope_round_trip;
pub use aes::gcm_encryption;
pub use aes::generate_aes_key;
pub use aes::encrypt_message_with_aes;
pub use aes::decrypt_message_with_aes;
pub use json::key_pair_json;
pub use json::encrypted_message_json;
pub use json::key_pair_to_json;
pub use json::encrypted_message_to_json;
pub use codec::base64_encoding;
pub use rsa_oaep::rsa_key_pair_related;
pub use rsa_oaep::rsa_public_pem_valid;
pub use rsa_oaep::oaep_encryption_of;
pub use rsa_oaep::text_starts_with;
pub use rsa_oaep::wrapped_key;
pub use rsa_oaep::unwrapped_key;
pub use rsa_oaep::lemma_wrapped_key_unwraps;
pub use rsa_oaep::generate_rsa_key_pair;
pub use rsa_oaep::encrypt_aes_key_with_rsa;
pub use rsa_oaep::decrypt_aes_key_with_rsa;

/// An RSA key pair, both halves as PKCS#1 PEM text.
#[derive(Debug)]
pub struct RsaKeyPair {
    pub private_key_pem: String,
    pub public_key_pem: String,
}

/// An authenticated-encryption envelope: the nonce and the ciphertext (with
/// its appended tag), each as base64 text. The two travel together; the
/// ciphertext cannot be opened without the exact nonce it was sealed with.
#[derive(Debug)]
pub struct EncryptedMessage {
    pub iv: String,
    pub ciphertext: String,
}

/// Error kinds reported by the library. Every failure is recoverable:
/// no operation panics or aborts the process.
#[derive(Clone, Copy, Debug, PartialEq, Eq, Structural)]
pub enum CryptoError {
    /// An input that should be base64 text did not decode.
    InvalidEncoding,
    /// An RSA key in PEM text did not parse.
    InvalidKeyFormat,
    /// A symmetric key did not have the required 32-byte length.
    InvalidKeyLength,
    /// A GCM nonce did not have the required 12-byte length.
    InvalidNonceLength,
    /// Authenticated decryption failed: tampered data, wrong key or wrong nonce.
    AuthenticationFailed,
    /// A plaintext exceeded the size limit of the padding scheme.
    SizeLimitExceeded,
    /// Decrypted bytes were not valid UTF-8 text.
    InvalidUtf8,
    /// The random source or a primitive failed unexpectedly.
    RandomnessUnavailable,
}

} // verus!
