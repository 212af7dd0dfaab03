use aes_gcm::KeyInit;
use aes_gcm::aead::Aead;
use vstd::prelude::*;

verus! {

use vstd::utf8::encode_utf8;
use vstd::utf8::decode_utf8;
use vstd::utf8::valid_utf8;
use vstd::utf8::decode_utf8_encode_utf8;
use vstd::utf8::encode_utf8_decode_utf8;
use vstd::utf8::encode_utf8_valid_utf8;
use crate::CryptoError;
use crate::EncryptedMessage;
use crate::codec::base64_encoding;
use crate::codec::base64_encode;
use crate::codec::base64_decode;
use crate::codec::string_from_utf8;

/// The AES-256-GCM ciphertext, 16-byte tag appended, for a 32-byte key, a
/// 12-byte nonce and a plaintext, with no associated data. The cipher is
/// deterministic in these three and, for a fixed key and nonce, injective in
/// the plaintext; both facts are pinned to the `aes_gcm` crate through the
/// two functions below.
pub uninterp spec fn gcm_encryption(key: Seq<u8>, nonce: Seq<u8>, plaintext: Seq<u8>) -> Seq<u8>;

/// The envelope texts hold a sealing of `msg`: the key text is the base64 of
/// a 32-byte key, the nonce text the base64 of a 12-byte nonce, and the
/// ciphertext text the base64 of the encryption of `msg`'s UTF-8 bytes under
/// the two.
pub open spec fn envelope_seals(
    aes_key_b64: Seq<char>,
    iv_b64: Seq<char>,
    ct_b64: Seq<char>,
    msg: Seq<char>,
) -> bool {
    exists|key: Seq<u8>, nonce: Seq<u8>|
        aes_key_b64 == base64_encoding(key) && key.len() == 32 && iv_b64 == base64_encoding(nonce)
            && nonce.len() == 12 && ct_b64 == base64_encoding(
            #[trigger] gcm_encryption(key, nonce, encode_utf8(msg)),
        )
}

proof fn lemma_envelope_seals(
    key: Seq<u8>,
    nonce: Seq<u8>,
    aes_key_b64: Seq<char>,
    iv_b64: Seq<char>,
    ct_b64: Seq<char>,
    msg: Seq<char>,
)
    requires
        aes_key_b64 == base64_encoding(key),
        key.len() == 32,
        iv_b64 == base64_encoding(nonce),
        nonce.len() == 12,
        ct_b64 == base64_encoding(gcm_encryption(key, nonce, encode_utf8(msg))),
    ensures
        envelope_seals(aes_key_b64, iv_b64, ct_b64, msg),
{
    assert(gcm_encryption(key, nonce, encode_utf8(msg)) == gcm_encryption(
        key,
        nonce,
        encode_utf8(msg),
    ));
}

/// Relies on `aes_gcm::Aes256Gcm` through `KeyInit::new` and
/// `Aead::encrypt`: authenticated encryption with no associated data and the
/// tag appended, failing only for plaintexts over 2^36 bytes.
#[verifier::external_body]
fn gcm_encrypt(key: &[u8], nonce: &[u8], plaintext: &[u8]) -> (r: Option<Vec<u8>>)
    requires
        key@.len() == 32,
        nonce@.len() == 12,
    ensures
        match r {
            Some(c) => c@ == gcm_encryption(key@, nonce@, plaintext@) && c@.len() == plaintext@.len()
                + 16 && plaintext@.len() <= 0x1000000000,
            None => plaintext@.len() > 0x1000000000,
        },
{
    let cipher = aes_gcm::Aes256Gcm::new(aes_gcm::Key::<aes_gcm::Aes256Gcm>::from_slice(key));
    cipher.encrypt(aes_gcm::Nonce::from_slice(nonce), plaintext).ok()
}

/// Relies on `aes_gcm::Aes256Gcm` through `KeyInit::new` and
/// `Aead::decrypt`: it verifies the appended tag and returns the one
/// plaintext that seals to this ciphertext under this key and nonce, failing
/// when there is none.
#[verifier::external_body]
fn gcm_decrypt(key: &[u8], nonce: &[u8], ciphertext: &[u8]) -> (r: Option<Vec<u8>>)
    requires
        key@.len() == 32,
        nonce@.len() == 12,
    ensures
        match r {
            Some(m) => ciphertext@ == gcm_encryption(key@, nonce@, m@) && m@.len() + 16
                == ciphertext@.len() && (forall|other: Seq<u8>|
                other.len() <= 0x1000000000 && gcm_encryption(key@, nonce@, other) == ciphertext@
                    ==> other == m@),
            None => forall|m: Seq<u8>|
                m.len() <= 0x1000000000 ==> gcm_encryption(key@, nonce@, m) != ciphertext@,
        },
{
    let cipher = aes_gcm::Aes256Gcm::new(aes_gcm::Key::<aes_gcm::Aes256Gcm>::from_slice(key));
    cipher.decrypt(aes_gcm::Nonce::from_slice(nonce), ciphertext).ok()
}

/// Relies on `aes_gcm::Aes256Gcm::generate_key` over `rand::rngs::OsRng`: 32
/// bytes drawn from the operating system's secure random source. Exhaustion
/// of that source aborts; no safe fallback exists.
#[verifier::external_body]
fn generate_key_bytes() -> (r: Vec<u8>)
    ensures
        r@.len() == 32,
{
    aes_gcm::Aes256Gcm::generate_key(&mut rand::rngs::OsRng).to_vec()
}

/// Relies on `rand::rngs::OsRng` through `rand_core::RngCore::fill_bytes`:
/// 12 bytes drawn from the operating system's secure random source.
/// Exhaustion of that source aborts; no safe fallback exists.
#[verifier::external_body]
fn generate_nonce_bytes() -> (r: Vec<u8>)
    ensures
        r@.len() == 12,
{
    let mut buf = vec![0u8; 12];
    rand_core::RngCore::fill_bytes(&mut rand::rngs::OsRng, &mut buf);
    buf
}

/// Draws a fresh 32-byte AES-256 key and returns it as base64 text.
pub fn generate_aes_key() -> (r: String)
    ensures
        exists|key: Seq<u8>| key.len() == 32 && r@ == base64_encoding(key),
{
    let key = generate_key_bytes();
    let encoded = base64_encode(key.as_slice());
    proof {
        assert(key@.len() == 32 && encoded@ == base64_encoding(key@));
    }
    encoded
}

/// Seals `message` with the given base64 32-byte key under a fresh random
/// 12-byte nonce. On success the envelope holds the base64 nonce and the
/// base64 ciphertext with its appended tag; an envelope and its nonce are
/// inseparable. Fails exactly on a key that is not base64, a key that is not
/// 32 bytes, or a message over 2^36 bytes.
pub fn encrypt_message_with_aes(message: &str, aes_key_base64: &str) -> (r: Result<
    EncryptedMessage,
    CryptoError,
>)
    ensures
        match r {
            Ok(env) => envelope_seals(aes_key_base64@, env.iv@, env.ciphertext@, message@)
                && encode_utf8(message@).len() <= 0x1000000000 && (exists|c: Seq<u8>|
                env.ciphertext@ == base64_encoding(c) && c.len() == encode_utf8(message@).len()
                    + 16),
            Err(e) => match e {
                CryptoError::InvalidEncoding => forall|b: Seq<u8>|
                    base64_encoding(b) != aes_key_base64@,
                CryptoError::InvalidKeyLength => exists|b: Seq<u8>|
                    base64_encoding(b) == aes_key_base64@ && b.len() != 32,
                CryptoError::SizeLimitExceeded => encode_utf8(message@).len() > 0x1000000000,
                _ => false,
            },
        },
        ((exists|key: Seq<u8>| aes_key_base64@ == base64_encoding(key) && key.len() == 32)
            && encode_utf8(message@).len() <= 0x1000000000) ==> r is Ok,
{
    let key = match base64_decode(aes_key_base64) {
        Some(k) => k,
        None => {
            return Err(CryptoError::InvalidEncoding);
        },
    };
    if key.len() != 32 {
        return Err(CryptoError::InvalidKeyLength);
    }
    let nonce = generate_nonce_bytes();
    let sealed = match gcm_encrypt(key.as_slice(), nonce.as_slice(), message.as_bytes()) {
        Some(c) => c,
        None => {
            return Err(CryptoError::SizeLimitExceeded);
        },
    };
    let env = EncryptedMessage {
        iv: base64_encode(nonce.as_slice()),
        ciphertext: base64_encode(sealed.as_slice()),
    };
    proof {
        lemma_envelope_seals(key@, nonce@, aes_key_base64@, env.iv@, env.ciphertext@, message@);
        assert(env.ciphertext@ == base64_encoding(sealed@) && sealed@.len() == encode_utf8(
            message@,
        ).len() + 16);
    }
    Ok(env)
}

/// Round trip: an envelope sealed from `msg` carries witnesses that meet the
/// recovery clause of `decrypt_message_with_aes`, so opening it under its
/// own key and nonce returns exactly `msg`.
pub proof fn lemma_envelope_round_trip(
    aes_key_b64: Seq<char>,
    iv_b64: Seq<char>,
    ct_b64: Seq<char>,
    msg: Seq<char>,
)
    requires
        envelope_seals(aes_key_b64, iv_b64, ct_b64, msg),
        encode_utf8(msg).len() <= 0x1000000000,
    ensures
        exists|key: Seq<u8>, nonce: Seq<u8>, plain: Seq<u8>|
            aes_key_b64 == base64_encoding(key) && key.len() == 32 && iv_b64 == base64_encoding(
                nonce,
            ) && nonce.len() == 12 && ct_b64 == base64_encoding(
                #[trigger] gcm_encryption(key, nonce, plain),
            ) && plain.len() <= 0x1000000000 && valid_utf8(plain) && decode_utf8(plain) == msg,
{
    let (key, nonce): (Seq<u8>, Seq<u8>) = choose|key: Seq<u8>, nonce: Seq<u8>|
        aes_key_b64 == base64_encoding(key) && key.len() == 32 && iv_b64 == base64_encoding(nonce)
            && nonce.len() == 12 && ct_b64 == base64_encoding(
            #[trigger] gcm_encryption(key, nonce, encode_utf8(msg)),
        );
    encode_utf8_valid_utf8(msg);
    encode_utf8_decode_utf8(msg);
    assert(aes_key_b64 == base64_encoding(key) && key.len() == 32 && iv_b64 == base64_encoding(
        nonce,
    ) && nonce.len() == 12 && ct_b64 == base64_encoding(
        gcm_encryption(key, nonce, encode_utf8(msg)),
    ) && encode_utf8(msg).len() <= 0x1000000000 && valid_utf8(encode_utf8(msg)) && decode_utf8(
        encode_utf8(msg),
    ) == msg);
}

/// Opens an envelope: checks the appended tag and returns the sealed text.
/// Any envelope produced by `encrypt_message_with_aes` opens under its own
/// key to exactly the message that was sealed; that is the closing `ensures`
/// clause. Fails exactly on inputs that are not base64, a key that is not 32
/// bytes, a nonce that is not 12 bytes, a ciphertext that nothing seals to
/// under this key and nonce, or sealed bytes that are not UTF-8 text.
pub fn decrypt_message_with_aes(
    iv_base64: &str,
    ciphertext_base64: &str,
    aes_key_base64: &str,
) -> (r: Result<String, CryptoError>)
    ensures
        match r {
            Ok(m) => envelope_seals(aes_key_base64@, iv_base64@, ciphertext_base64@, m@),
            Err(e) => match e {
                CryptoError::InvalidEncoding => (forall|b: Seq<u8>|
                    base64_encoding(b) != aes_key_base64@) || (forall|b: Seq<u8>|
                    base64_encoding(b) != iv_base64@) || (forall|b: Seq<u8>|
                    base64_encoding(b) != ciphertext_base64@),
                CryptoError::InvalidKeyLength => exists|b: Seq<u8>|
                    base64_encoding(b) == aes_key_base64@ && b.len() != 32,
                CryptoError::InvalidNonceLength => (exists|b: Seq<u8>|
                    base64_encoding(b) == iv_base64@ && b.len() != 12) && (exists|kb: Seq<u8>|
                    base64_encoding(kb) == aes_key_base64@ && kb.len() == 32),
                CryptoError::AuthenticationFailed => exists|key: Seq<u8>, nonce: Seq<u8>, c: Seq<u8>|
                    aes_key_base64@ == base64_encoding(key) && key.len() == 32 && iv_base64@
                        == base64_encoding(nonce) && nonce.len() == 12 && ciphertext_base64@
                        == base64_encoding(c) && (forall|m: Seq<u8>|
                        m.len() <= 0x1000000000 ==> gcm_encryption(key, nonce, m) != c),
                CryptoError::InvalidUtf8 => exists|key: Seq<u8>, nonce: Seq<u8>, m: Seq<u8>|
                    aes_key_base64@ == base64_encoding(key) && key.len() == 32 && iv_base64@
                        == base64_encoding(nonce) && nonce.len() == 12 && ciphertext_base64@
                        == base64_encoding(gcm_encryption(key, nonce, m)) && !valid_utf8(m),
                _ => false,
            },
        },
        forall|key: Seq<u8>, nonce: Seq<u8>, plain: Seq<u8>|
            aes_key_base64@ == base64_encoding(key) && key.len() == 32 && iv_base64@
                == base64_encoding(nonce) && nonce.len() == 12 && ciphertext_base64@
                == base64_encoding(gcm_encryption(key, nonce, plain)) && plain.len()
                <= 0x1000000000 && valid_utf8(plain) ==> (r matches Ok(m) && m@ == decode_utf8(
                plain,
            )),
{
    let key = match base64_decode(aes_key_base64) {
        Some(k) => k,
        None => {
            return Err(CryptoError::InvalidEncoding);
        },
    };
    if key.len() != 32 {
        return Err(CryptoError::InvalidKeyLength);
    }
    let nonce = match base64_decode(iv_base64) {
        Some(n) => n,
        None => {
            return Err(CryptoError::InvalidEncoding);
        },
    };
    if nonce.len() != 12 {
        return Err(CryptoError::InvalidNonceLength);
    }
    let sealed = match base64_decode(ciphertext_base64) {
        Some(c) => c,
        None => {
            return Err(CryptoError::InvalidEncoding);
        },
    };
    let opened = match gcm_decrypt(key.as_slice(), nonce.as_slice(), sealed.as_slice()) {
        Some(m) => m,
        None => {
            return Err(CryptoError::AuthenticationFailed);
        },
    };
    let ghost opened_bytes = opened@;
    match string_from_utf8(opened) {
        Some(text) => {
            proof {
                decode_utf8_encode_utf8(opened_bytes);
                assert(encode_utf8(text@) == opened_bytes);
                lemma_envelope_seals(
                    key@,
                    nonce@,
                    aes_key_base64@,
                    iv_base64@,
                    ciphertext_base64@,
                    text@,
                );
            }
            Ok(text)
        },
        None => Err(CryptoError::InvalidUtf8),
    }
}

} // verus!
