//! Secrets at rest: AES-256-GCM under the application key, framed as the
//! nonce followed by the sealed bytes, and written in base64.
//!
//! The cipher, the random nonce and base64 come from outside; the checks on
//! the key and on the frame, and the order of the steps, are decided here.

use crate::entropy::random_bytes;
use aes_gcm::aead::{Aead, KeyInit};
use aes_gcm::{Aes256Gcm, Nonce};
use base64::engine::general_purpose::STANDARD;
use base64::Engine;
use vstd::prelude::*;
use vstd::slice::slice_subrange;
use vstd::string::StringSliceAdditionalSpecFns;
use vstd::utf8::{decode_utf8, encode_utf8, valid_utf8};

verus! {

/// The length of the application key, in bytes.
pub const KEY_LENGTH: usize = 32;

/// The length of a nonce, in bytes.
pub const NONCE_LENGTH: usize = 12;

/// The longest plaintext that the cipher takes, in bytes.
pub const PLAINTEXT_MAX: u64 = 0x10_0000_0000;

/// Bytes in standard base64, padded.
pub uninterp spec fn base64_text(bytes: Seq<u8>) -> Seq<char>;

/// The bytes that a standard padded base64 text stands for, if it is one.
pub uninterp spec fn base64_bytes(text: Seq<char>) -> Option<Seq<u8>>;

/// What AES-256-GCM makes of a plaintext under a key of 32 bytes and a nonce
/// of 12, without associated data: the ciphertext followed by its tag.
pub uninterp spec fn aes_gcm_sealed(key: Seq<u8>, nonce: Seq<u8>, plaintext: Seq<u8>) -> Seq<u8>;

/// The plaintext that AES-256-GCM recovers from sealed bytes under a key of
/// 32 bytes and a nonce of 12, if their tag is the right one.
pub uninterp spec fn aes_gcm_opened(key: Seq<u8>, nonce: Seq<u8>, sealed: Seq<u8>) -> Option<
    Seq<u8>,
>;

/// Encodes bytes with `base64`'s `STANDARD` engine.
#[verifier::external_body]
fn base64_encode(bytes: &[u8]) -> (text: String)
    ensures
        text@ == base64_text(bytes@),
{
    STANDARD.encode(bytes)
}

/// Decodes a text with `base64`'s `STANDARD` engine: the bytes, or nothing
/// where the engine reports an error (a character outside the alphabet, a
/// wrong length, wrong padding).
#[verifier::external_body]
fn base64_decode(text: &str) -> (bytes: Option<Vec<u8>>)
    ensures
        match bytes {
            Some(found) => base64_bytes(text@) == Some(found@),
            None => base64_bytes(text@).is_none(),
        },
{
    STANDARD.decode(text).ok()
}

/// Seals a plaintext with `Aes256Gcm`: `new_from_slice` on the key, then
/// `encrypt` under the nonce. The cipher refuses a plaintext longer than
/// `PLAINTEXT_MAX` and nothing else, and what it returns depends on the three
/// arguments alone. The key and the nonce have the lengths that the two
/// calls need in order to return.
#[verifier::external_body]
fn seal(key: &[u8], nonce: &[u8], plaintext: &[u8]) -> (sealed: Option<Vec<u8>>)
    requires
        key@.len() == KEY_LENGTH,
        nonce@.len() == NONCE_LENGTH,
    ensures
        match sealed {
            Some(bytes) => {
                &&& plaintext@.len() <= PLAINTEXT_MAX
                &&& bytes@ == aes_gcm_sealed(key@, nonce@, plaintext@)
            },
            None => plaintext@.len() > PLAINTEXT_MAX,
        },
{
    Aes256Gcm::new_from_slice(key).ok()?.encrypt(Nonce::from_slice(nonce), plaintext).ok()
}

/// Opens sealed bytes with `Aes256Gcm`: `new_from_slice` on the key, then
/// `decrypt` under the nonce: the plaintext, or nothing where the cipher
/// reports an error (too few bytes for a tag, or a tag that is not the right
/// one). The result depends on the three arguments alone. The key and the
/// nonce have the lengths that the two calls need in order to return.
#[verifier::external_body]
fn open(key: &[u8], nonce: &[u8], sealed: &[u8]) -> (plaintext: Option<Vec<u8>>)
    requires
        key@.len() == KEY_LENGTH,
        nonce@.len() == NONCE_LENGTH,
    ensures
        match plaintext {
            Some(bytes) => aes_gcm_opened(key@, nonce@, sealed@) == Some(bytes@),
            None => aes_gcm_opened(key@, nonce@, sealed@).is_none(),
        },
{
    Aes256Gcm::new_from_slice(key).ok()?.decrypt(Nonce::from_slice(nonce), sealed).ok()
}

/// Reads bytes as UTF-8 with `String::from_utf8`: the text, or nothing where
/// the bytes are not valid UTF-8.
#[verifier::external_body]
fn utf8_text(bytes: Vec<u8>) -> (text: Option<String>)
    ensures
        match text {
            Some(found) => valid_utf8(bytes@) && found@ == decode_utf8(bytes@),
            None => !valid_utf8(bytes@),
        },
{
    String::from_utf8(bytes).ok()
}

/// Why a secret could not be sealed or opened.
#[derive(Debug, Clone, Copy, PartialEq, Eq, Structural)]
pub enum EncryptionError {
    /// No application key is configured.
    KeyNotSet,
    /// The application key is no base64.
    InvalidKey,
    /// The application key does not hold 32 bytes.
    InvalidKeyLength,
    /// The system gave no random nonce.
    NonceUnavailable,
    /// The cipher refused the plaintext.
    EncryptionFailed,
    /// The stored text is no base64.
    Base64DecodingFailed,
    /// The stored bytes are too few to hold a nonce.
    CiphertextTooShort,
    /// The cipher refused the sealed bytes.
    DecryptionFailed,
    /// The recovered bytes are no UTF-8.
    InvalidUtf8,
}

/// The words that go with an error.
pub open spec fn error_words(error: EncryptionError) -> Seq<char> {
    match error {
        EncryptionError::KeyNotSet => "APP_KEY not set"@,
        EncryptionError::InvalidKey => "Invalid APP_KEY"@,
        EncryptionError::InvalidKeyLength => "Invalid APP_KEY length"@,
        EncryptionError::NonceUnavailable => "Nonce unavailable"@,
        EncryptionError::EncryptionFailed => "Encryption failed"@,
        EncryptionError::Base64DecodingFailed => "Base64 decoding failed"@,
        EncryptionError::CiphertextTooShort => "Ciphertext too short"@,
        EncryptionError::DecryptionFailed => "Decryption failed"@,
        EncryptionError::InvalidUtf8 => "Invalid UTF-8"@,
    }
}

impl EncryptionError {
    /// The words that go with this error.
    pub fn message(&self) -> (words: &'static str)
        ensures
            words@ == error_words(*self),
    {
        match self {
            EncryptionError::KeyNotSet => "APP_KEY not set",
            EncryptionError::InvalidKey => "Invalid APP_KEY",
            EncryptionError::InvalidKeyLength => "Invalid APP_KEY length",
            EncryptionError::NonceUnavailable => "Nonce unavailable",
            EncryptionError::EncryptionFailed => "Encryption failed",
            EncryptionError::Base64DecodingFailed => "Base64 decoding failed",
            EncryptionError::CiphertextTooShort => "Ciphertext too short",
            EncryptionError::DecryptionFailed => "Decryption failed",
            EncryptionError::InvalidUtf8 => "Invalid UTF-8",
        }
    }
}

/// The key that a configured text stands for: the text must be there, be
/// base64, and hold 32 bytes.
pub open spec fn key_from(app_key: Option<Seq<char>>) -> Result<Seq<u8>, EncryptionError> {
    match app_key {
        None => Err(EncryptionError::KeyNotSet),
        Some(text) => match base64_bytes(text) {
            None => Err(EncryptionError::InvalidKey),
            Some(bytes) => if bytes.len() == KEY_LENGTH {
                Ok(bytes)
            } else {
                Err(EncryptionError::InvalidKeyLength)
            },
        },
    }
}

/// The stored form of a secret sealed under `key` and `nonce`: base64 of the
/// nonce followed by the sealed bytes of the secret's UTF-8.
pub open spec fn sealed_text(key: Seq<u8>, nonce: Seq<u8>, plain_text: Seq<char>) -> Result<
    Seq<char>,
    EncryptionError,
> {
    let plaintext = encode_utf8(plain_text);
    if plaintext.len() <= PLAINTEXT_MAX {
        Ok(base64_text(nonce + aes_gcm_sealed(key, nonce, plaintext)))
    } else {
        Err(EncryptionError::EncryptionFailed)
    }
}

/// Whether `stored` is what sealing a secret under `key` gives for some
/// nonce of 12 bytes.
pub open spec fn sealed_under(
    key: Seq<u8>,
    plain_text: Seq<char>,
    stored: Result<Seq<char>, EncryptionError>,
) -> bool {
    exists|nonce: Seq<u8>|
        nonce.len() == NONCE_LENGTH && stored == #[trigger] sealed_text(key, nonce, plain_text)
}

/// The secret in a stored text: the text must be base64 of at least 12
/// bytes; the first 12 are the nonce, the rest must open under it, to
/// UTF-8.
pub open spec fn opened_text(key: Seq<u8>, cipher_text: Seq<char>) -> Result<
    Seq<char>,
    EncryptionError,
> {
    match base64_bytes(cipher_text) {
        None => Err(EncryptionError::Base64DecodingFailed),
        Some(framed) => if framed.len() < NONCE_LENGTH {
            Err(EncryptionError::CiphertextTooShort)
        } else {
            match aes_gcm_opened(
                key,
                framed.subrange(0, NONCE_LENGTH as int),
                framed.subrange(NONCE_LENGTH as int, framed.len() as int),
            ) {
                None => Err(EncryptionError::DecryptionFailed),
                Some(plaintext) => if valid_utf8(plaintext) {
                    Ok(decode_utf8(plaintext))
                } else {
                    Err(EncryptionError::InvalidUtf8)
                },
            }
        },
    }
}

/// The view of an optional text.
pub open spec fn key_text(app_key: Option<&str>) -> Option<Seq<char>> {
    match app_key {
        Some(text) => Some(text@),
        None => None,
    }
}

/// The view of a text or an error.
pub open spec fn outcome_view(outcome: Result<String, EncryptionError>) -> Result<
    Seq<char>,
    EncryptionError,
> {
    match outcome {
        Ok(text) => Ok(text@),
        Err(error) => Err(error),
    }
}

/// The view of bytes or an error.
pub open spec fn key_view(outcome: Result<Vec<u8>, EncryptionError>) -> Result<
    Seq<u8>,
    EncryptionError,
> {
    match outcome {
        Ok(bytes) => Ok(bytes@),
        Err(error) => Err(error),
    }
}

/// Seals and opens secrets under the application key.
pub struct Encryptor;

impl Encryptor {
    /// The application key that the configured text stands for.
    pub fn get_key(app_key: Option<&str>) -> (key: Result<Vec<u8>, EncryptionError>)
        ensures
            key_view(key) == key_from(key_text(app_key)),
    {
        match app_key {
            None => Err(EncryptionError::KeyNotSet),
            Some(text) => match base64_decode(text) {
                None => Err(EncryptionError::InvalidKey),
                Some(bytes) => if bytes.len() == KEY_LENGTH {
                    Ok(bytes)
                } else {
                    Err(EncryptionError::InvalidKeyLength)
                },
            },
        }
    }

    /// Seals a secret under a key of 32 bytes and a nonce of 12.
    pub fn seal_with_nonce(key: &[u8], nonce: Vec<u8>, plain_text: &str) -> (stored: Result<
        String,
        EncryptionError,
    >)
        requires
            key@.len() == KEY_LENGTH,
            nonce@.len() == NONCE_LENGTH,
        ensures
            outcome_view(stored) == sealed_text(key@, nonce@, plain_text@),
    {
        match seal(key, nonce.as_slice(), plain_text.as_bytes()) {
            None => Err(EncryptionError::EncryptionFailed),
            Some(sealed) => {
                let mut framed = nonce;
                let mut sealed = sealed;
                framed.append(&mut sealed);
                Ok(base64_encode(framed.as_slice()))
            },
        }
    }

    /// Seals a secret under the application key and a nonce drawn for it.
    /// A key that is missing or wrong is reported as `get_key` reports it.
    /// Under a good key the result is what `seal_with_nonce` gives for some
    /// nonce of 12 bytes, unless the system had no nonce to give.
    pub fn encrypt_data(app_key: Option<&str>, plain_text: &str) -> (stored: Result<
        String,
        EncryptionError,
    >)
        ensures
            match key_from(key_text(app_key)) {
                Err(error) => stored == Err::<String, EncryptionError>(error),
                Ok(key) => {
                    ||| stored == Err::<String, EncryptionError>(EncryptionError::NonceUnavailable)
                    ||| sealed_under(key, plain_text@, outcome_view(stored))
                },
            },
    {
        let key = match Encryptor::get_key(app_key) {
            Ok(key) => key,
            Err(error) => {
                return Err(error);
            },
        };
        match random_bytes(NONCE_LENGTH) {
            None => Err(EncryptionError::NonceUnavailable),
            Some(nonce) => {
                let ghost drawn = nonce@;
                let stored = Encryptor::seal_with_nonce(key.as_slice(), nonce, plain_text);
                assert(outcome_view(stored) == sealed_text(key@, drawn, plain_text@));
                stored
            },
        }
    }

    /// Opens a stored secret under the application key.
    pub fn decrypt_data(app_key: Option<&str>, cipher_text: &str) -> (secret: Result<
        String,
        EncryptionError,
    >)
        ensures
            outcome_view(secret) == match key_from(key_text(app_key)) {
                Err(error) => Err(error),
                Ok(key) => opened_text(key, cipher_text@),
            },
    {
        let key = match Encryptor::get_key(app_key) {
            Ok(key) => key,
            Err(error) => {
                return Err(error);
            },
        };
        let framed = match base64_decode(cipher_text) {
            Some(framed) => framed,
            None => {
                return Err(EncryptionError::Base64DecodingFailed);
            },
        };
        if framed.len() < NONCE_LENGTH {
            return Err(EncryptionError::CiphertextTooShort);
        }
        let nonce = slice_subrange(framed.as_slice(), 0, NONCE_LENGTH);
        let sealed = slice_subrange(framed.as_slice(), NONCE_LENGTH, framed.len());
        match open(key.as_slice(), nonce, sealed) {
            None => Err(EncryptionError::DecryptionFailed),
            Some(plaintext) => match utf8_text(plaintext) {
                Some(text) => Ok(text),
                None => Err(EncryptionError::InvalidUtf8),
            },
        }
    }
}

} // verus!
