//! Credential protection: the master key kept in the OS keyring (as hex text)
//! and the decryption of account credentials stored base64-encoded,
//! AES-256-GCM encrypted.

use vstd::prelude::*;
use vstd::utf8::{decode_utf8, encode_utf8, is_ascii_chars, valid_utf8};
use aes_gcm::aead::{Aead, KeyInit};
use aes_gcm::{Aes256Gcm, Nonce};
use base64::Engine;
use rand::RngCore;
use crate::text::concat2;

verus! {

// ---------------------------------------------------------------------------
// Outside types and functions
// ---------------------------------------------------------------------------

#[verifier::external_type_specification]
#[verifier::external_body]
pub struct ExAeadError(aes_gcm::Error);

#[verifier::external_type_specification]
#[verifier::external_body]
pub struct ExBase64DecodeError(base64::DecodeError);

#[verifier::external_type_specification]
#[verifier::external_body]
pub struct ExFromHexError(hex::FromHexError);

#[verifier::external_type_specification]
#[verifier::external_body]
pub struct ExFromUtf8Error(std::string::FromUtf8Error);

/// What base64's standard engine (standard alphabet, padded) decodes `text` to,
/// or `None` when it refuses the text.
pub uninterp spec fn base64_standard_decode(text: Seq<char>) -> Option<Seq<u8>>;

/// What AES-256-GCM decryption of `ciphertext` (tag at its end) under `key`
/// and `nonce`, with no associated data, yields, or `None` when
/// authentication fails.
pub uninterp spec fn aes256_gcm_open(key: Seq<u8>, nonce: Seq<u8>, ciphertext: Seq<u8>) -> Option<Seq<u8>>;

/// `String::from_utf8` succeeds exactly on valid UTF-8 and then holds the
/// decoded characters.
pub assume_specification[ String::from_utf8 ](vec: Vec<u8>) -> (res: Result<String, std::string::FromUtf8Error>)
    ensures
        match res {
            Ok(s) => valid_utf8(vec@) && s@ == decode_utf8(vec@),
            Err(_) => !valid_utf8(vec@),
        },
;

/// Calls `base64::engine::general_purpose::STANDARD.decode` on the text's
/// bytes. Claimed: the result is the one `base64_standard_decode` names.
#[verifier::external_body]
fn decode_base64_standard(text: &str) -> (res: Result<Vec<u8>, base64::DecodeError>)
    ensures
        match res {
            Ok(bytes) => base64_standard_decode(text@) == Some(bytes@),
            Err(_) => base64_standard_decode(text@) is None,
        },
{
    base64::engine::general_purpose::STANDARD.decode(text)
}

/// Calls `Aes256Gcm::new(key).decrypt(Nonce::from_slice(nonce), ciphertext)`
/// from `aes-gcm`. Claimed: the result is the one `aes256_gcm_open` names, and
/// a ciphertext shorter than the 16-byte tag is always refused (the crate's
/// `decrypt_in_place` returns `Error` before any work in that case).
/// `Nonce::from_slice` panics unless the nonce has 12 bytes.
#[verifier::external_body]
fn aes256_gcm_decrypt(key: &[u8; 32], nonce: &[u8], ciphertext: &[u8]) -> (res: Result<Vec<u8>, aes_gcm::Error>)
    requires
        nonce@.len() == 12,
    ensures
        match res {
            Ok(plain) => aes256_gcm_open(key@, nonce@, ciphertext@) == Some(plain@),
            Err(_) => aes256_gcm_open(key@, nonce@, ciphertext@) is None,
        },
        ciphertext@.len() < 16 ==> res is Err,
{
    let cipher = Aes256Gcm::new(key.into());
    cipher.decrypt(Nonce::from_slice(nonce), ciphertext)
}

/// Renders an `aead::Error` with its `Display` impl, which writes the fixed
/// text `aead::Error`.
#[verifier::external_body]
fn aead_error_text(e: &aes_gcm::Error) -> (t: String)
    ensures
        t@ == "aead::Error"@,
{
    e.to_string()
}

/// Calls `rand::thread_rng().fill_bytes` on a 32-byte buffer. Nothing is
/// stated of the bytes: they come from the thread-local random generator.
#[verifier::external_body]
fn random_key_bytes() -> (key: [u8; 32]) {
    let mut key = [0u8; 32];
    rand::thread_rng().fill_bytes(&mut key);
    key
}

/// Calls `hex::encode`. Claimed, as the crate's `BytesToHexChars` shows: each
/// byte becomes two lower-case hex digits, high nibble first.
#[verifier::external_body]
fn encode_hex(bytes: &[u8; 32]) -> (text: String)
    ensures
        text@ == hex_text(bytes@),
{
    hex::encode(bytes)
}

/// Calls `hex::decode_to_slice` into a 32-byte buffer. Claimed, as the crate's
/// source shows: it succeeds exactly when the text's bytes are 64 hex digits
/// (either case), and then each pair of digits gives one byte, high nibble
/// first.
#[verifier::external_body]
fn decode_hex_key(text: &str) -> (res: Result<[u8; 32], hex::FromHexError>)
    ensures
        match res {
            Ok(key) => hex_bytes(encode_utf8(text@)) == Some(key@),
            Err(_) => !(hex_bytes(encode_utf8(text@)) matches Some(k) && k.len() == 32),
        },
{
    let mut key = [0u8; 32];
    match hex::decode_to_slice(text, &mut key) {
        Ok(()) => Ok(key),
        Err(e) => Err(e),
    }
}

// ---------------------------------------------------------------------------
// Hex text
// ---------------------------------------------------------------------------

/// The lower-case hex digit for a value below 16.
pub open spec fn hex_digit(d: int) -> char {
    if d < 10 {
        (48 + d) as char
    } else {
        (87 + d) as char
    }
}

/// The high four bits of a byte.
pub open spec fn high_nibble(b: u8) -> int {
    b as int / 16
}

/// The low four bits of a byte.
pub open spec fn low_nibble(b: u8) -> int {
    b as int % 16
}

/// Lower-case hex text of `bytes`, two digits per byte, high nibble first.
pub open spec fn hex_text(bytes: Seq<u8>) -> Seq<char> {
    Seq::new(
        2 * bytes.len(),
        |i: int|
            if i % 2 == 0 {
                hex_digit(high_nibble(bytes[i / 2]))
            } else {
                hex_digit(low_nibble(bytes[i / 2]))
            },
    )
}

/// The value of a hex digit byte (`0`-`9`, `a`-`f`, `A`-`F`).
pub open spec fn hex_value(b: u8) -> Option<int> {
    if 48 <= b <= 57 {
        Some(b - 48)
    } else if 97 <= b <= 102 {
        Some(b - 87)
    } else if 65 <= b <= 70 {
        Some(b - 55)
    } else {
        None
    }
}

/// The bytes that hex text (given by its bytes) stands for, or `None` when
/// its length is odd or it holds a byte that is not a hex digit.
pub open spec fn hex_bytes(text: Seq<u8>) -> Option<Seq<u8>> {
    if text.len() % 2 != 0 {
        None
    } else if exists|i: int| 0 <= i < text.len() && #[trigger] hex_value(text[i]) is None {
        None
    } else {
        Some(
            Seq::new(
                text.len() / 2,
                |i: int| (hex_value(text[2 * i])->0 * 16 + hex_value(text[2 * i + 1])->0) as u8,
            ),
        )
    }
}

/// The master key that hex text stored in the keyring stands for: the text
/// must be exactly 64 hex digits.
pub open spec fn stored_master_key(text: Seq<char>) -> Option<Seq<u8>> {
    match hex_bytes(encode_utf8(text)) {
        Some(k) => if k.len() == 32 {
            Some(k)
        } else {
            None
        },
        None => None,
    }
}

// ---------------------------------------------------------------------------
// Credentials
// ---------------------------------------------------------------------------

/// Why a credential or the master key could not be obtained (the model of
/// [`SecurityError`]).
pub enum SecurityFault {
    CredentialNotBase64,
    LegacyDecryptFailed(Seq<char>),
    DecryptFailed(Seq<char>),
    CredentialNotUtf8,
    MasterKeyNotHex,
    KeyringUnavailable,
}

/// Why a credential or the master key could not be obtained.
pub enum SecurityError {
    /// The stored credential is not base64 text.
    CredentialNotBase64,
    /// A credential too short to carry a nonce failed to decrypt with the
    /// legacy fixed nonce; `detail` is the cipher's error text.
    LegacyDecryptFailed { detail: String },
    /// A credential failed to decrypt both with its own nonce and with the
    /// legacy fixed nonce; `detail` is the cipher's error text.
    DecryptFailed { detail: String },
    /// The decrypted credential is not UTF-8.
    CredentialNotUtf8,
    /// The keyring holds a master key that is not 64 hex digits.
    MasterKeyNotHex,
    /// The keyring could not be read (for another reason than a missing entry).
    KeyringUnavailable,
}

impl View for SecurityError {
    type V = SecurityFault;

    open spec fn view(&self) -> SecurityFault {
        match self {
            SecurityError::CredentialNotBase64 => SecurityFault::CredentialNotBase64,
            SecurityError::LegacyDecryptFailed { detail } => SecurityFault::LegacyDecryptFailed(detail@),
            SecurityError::DecryptFailed { detail } => SecurityFault::DecryptFailed(detail@),
            SecurityError::CredentialNotUtf8 => SecurityFault::CredentialNotUtf8,
            SecurityError::MasterKeyNotHex => SecurityFault::MasterKeyNotHex,
            SecurityError::KeyringUnavailable => SecurityFault::KeyringUnavailable,
        }
    }
}

/// The message of a security fault.
pub open spec fn security_message(f: SecurityFault) -> Seq<char> {
    match f {
        SecurityFault::CredentialNotBase64 => "Failed to decode credential as base64"@,
        SecurityFault::LegacyDecryptFailed(d) => "Credential decryption failed (legacy format): "@ + d,
        SecurityFault::DecryptFailed(d) => "Credential decryption failed (new+legacy): "@ + d,
        SecurityFault::CredentialNotUtf8 => "Credential is not valid UTF-8"@,
        SecurityFault::MasterKeyNotHex => "Failed to decode master key"@,
        SecurityFault::KeyringUnavailable => "Failed to retrieve master key from keyring"@,
    }
}

impl SecurityError {
    /// The text that reports this error.
    pub fn message(&self) -> (m: String)
        ensures
            m@ == security_message(self@),
    {
        match self {
            SecurityError::CredentialNotBase64 => "Failed to decode credential as base64".to_owned(),
            SecurityError::LegacyDecryptFailed { detail } => concat2(
                "Credential decryption failed (legacy format): ",
                detail.as_str(),
            ),
            SecurityError::DecryptFailed { detail } => concat2("Credential decryption failed (new+legacy): ", detail.as_str()),
            SecurityError::CredentialNotUtf8 => "Credential is not valid UTF-8".to_owned(),
            SecurityError::MasterKeyNotHex => "Failed to decode master key".to_owned(),
            SecurityError::KeyringUnavailable => "Failed to retrieve master key from keyring".to_owned(),
        }
    }
}

/// The fixed nonce of the legacy credential format: the bytes of `unique nonce`.
pub open spec fn legacy_nonce() -> Seq<u8> {
    seq![117u8, 110, 105, 113, 117, 101, 32, 110, 111, 110, 99, 101]
}

fn legacy_nonce_bytes() -> (n: [u8; 12])
    ensures
        n@ == legacy_nonce(),
{
    let n: [u8; 12] = [117u8, 110, 105, 113, 117, 101, 32, 110, 111, 110, 99, 101];
    assert(n@ =~= legacy_nonce());
    n
}

/// Decrypted bytes as text.
pub open spec fn plaintext_text(plain: Seq<u8>) -> Result<Seq<char>, SecurityFault> {
    if valid_utf8(plain) {
        Ok(decode_utf8(plain))
    } else {
        Err(SecurityFault::CredentialNotUtf8)
    }
}

/// What a stored credential decrypts to under `key`. The stored text is
/// base64 of either a 12-byte nonce followed by the ciphertext, or (legacy
/// format) a ciphertext sealed under the fixed nonce `unique nonce`. Texts
/// that decode to fewer than 12 bytes are tried in the legacy format only;
/// longer ones fall back to it when their own nonce does not authenticate.
pub open spec fn credential_plaintext(key: Seq<u8>, stored: Seq<char>) -> Result<Seq<char>, SecurityFault> {
    match base64_standard_decode(stored) {
        None => Err(SecurityFault::CredentialNotBase64),
        Some(combined) => if combined.len() < 12 {
            match aes256_gcm_open(key, legacy_nonce(), combined) {
                Some(plain) => plaintext_text(plain),
                None => Err(SecurityFault::LegacyDecryptFailed("aead::Error"@)),
            }
        } else {
            match aes256_gcm_open(key, combined.take(12), combined.skip(12)) {
                Some(plain) => plaintext_text(plain),
                None => match aes256_gcm_open(key, legacy_nonce(), combined) {
                    Some(plain) => plaintext_text(plain),
                    None => Err(SecurityFault::DecryptFailed("aead::Error"@)),
                },
            }
        },
    }
}

/// What the keyring returned for the master-key entry.
pub enum StoredSecret {
    /// The entry exists and holds this text.
    Found(String),
    /// There is no such entry.
    Missing,
    /// The keyring could not be read.
    Unavailable,
}

/// The master key, and whether it was just created.
pub enum MasterKey {
    /// The key read back from the keyring.
    Existing([u8; 32]),
    /// A fresh random key; `encoded` is the hex text to store in the keyring
    /// under the master-key entry.
    Created { key: [u8; 32], encoded: String },
}

/// Access to the secrets of one keyring service.
pub struct SecurityManager {
    service_name: String,
}

impl View for SecurityManager {
    type V = Seq<char>;

    closed spec fn view(&self) -> Seq<char> {
        self.service_name@
    }
}

impl SecurityManager {
    /// A manager for the keyring service `service`.
    pub fn new(service: &str) -> (r: SecurityManager)
        ensures
            r@ == service@,
    {
        SecurityManager { service_name: service.to_owned() }
    }

    /// The keyring service this manager uses.
    pub fn service_name(&self) -> (s: &str)
        ensures
            s@ == self@,
    {
        self.service_name.as_str()
    }

    /// A fresh random master key.
    fn generate_new_master_key(&self) -> [u8; 32] {
        random_key_bytes()
    }

    /// The master key, given what the keyring returned for its entry: the
    /// stored hex text is decoded; a missing entry gets a fresh random key,
    /// returned with the hex text that the caller stores; any other keyring
    /// failure is an error.
    pub fn get_or_create_master_key(&self, stored: StoredSecret) -> (r: Result<MasterKey, SecurityError>)
        ensures
            match stored {
                StoredSecret::Found(text) => match stored_master_key(text@) {
                    Some(k) => r matches Ok(MasterKey::Existing(key)) && key@ == k,
                    None => r matches Err(SecurityError::MasterKeyNotHex),
                },
                StoredSecret::Missing => r matches Ok(MasterKey::Created { key, encoded })
                    && encoded@ == hex_text(key@),
                StoredSecret::Unavailable => r matches Err(SecurityError::KeyringUnavailable),
            },
    {
        match stored {
            StoredSecret::Found(text) => {
                match decode_hex_key(text.as_str()) {
                    Ok(key) => Ok(MasterKey::Existing(key)),
                    Err(_) => Err(SecurityError::MasterKeyNotHex),
                }
            },
            StoredSecret::Missing => {
                let key = self.generate_new_master_key();
                let encoded = encode_hex(&key);
                Ok(MasterKey::Created { key, encoded })
            },
            StoredSecret::Unavailable => Err(SecurityError::KeyringUnavailable),
        }
    }

    /// Decrypts a stored credential under `key`; see `credential_plaintext`.
    /// Text that decodes to fewer than 16 bytes is always refused, since then
    /// no ciphertext tried can hold the 16-byte authentication tag.
    pub fn decrypt(&self, key: &[u8; 32], b64_ciphertext: &str) -> (r: Result<String, SecurityError>)
        ensures
            match r {
                Ok(text) => credential_plaintext(key@, b64_ciphertext@) == Ok::<Seq<char>, SecurityFault>(text@),
                Err(e) => credential_plaintext(key@, b64_ciphertext@) == Err::<Seq<char>, SecurityFault>(e@),
            },
            base64_standard_decode(b64_ciphertext@) matches Some(c) && c.len() < 12
                ==> r matches Err(SecurityError::LegacyDecryptFailed { .. }),
            base64_standard_decode(b64_ciphertext@) matches Some(c) && c.len() < 16 ==> r is Err,
            base64_standard_decode(b64_ciphertext@) is None ==> r matches Err(
                SecurityError::CredentialNotBase64,
            ),
            base64_standard_decode(b64_ciphertext@) matches Some(c) ==> (aes256_gcm_open(
                key@,
                c.take(12),
                c.skip(12),
            ) matches Some(p) ==> (c.len() >= 12 && valid_utf8(p) ==> (r matches Ok(t) && t@
                == decode_utf8(p)))),
            base64_standard_decode(b64_ciphertext@) matches Some(c) ==> (aes256_gcm_open(
                key@,
                legacy_nonce(),
                c,
            ) matches Some(p) ==> ((c.len() < 12 || aes256_gcm_open(key@, c.take(12), c.skip(12)) is None)
                && valid_utf8(p) ==> (r matches Ok(t) && t@ == decode_utf8(p)))),
    {
        let combined = match decode_base64_standard(b64_ciphertext) {
            Ok(c) => c,
            Err(_) => return Err(SecurityError::CredentialNotBase64),
        };
        let fixed = legacy_nonce_bytes();
        if combined.len() < 12 {
            return match aes256_gcm_decrypt(key, fixed.as_slice(), combined.as_slice()) {
                Ok(plain) => Self::plaintext(plain),
                Err(e) => Err(SecurityError::LegacyDecryptFailed { detail: aead_error_text(&e) }),
            };
        }
        let (nonce, sealed) = combined.as_slice().split_at(12);
        proof {
            assert(nonce@ =~= combined@.take(12));
            assert(sealed@ =~= combined@.skip(12));
        }
        match aes256_gcm_decrypt(key, nonce, sealed) {
            Ok(plain) => Self::plaintext(plain),
            Err(_) => match aes256_gcm_decrypt(key, fixed.as_slice(), combined.as_slice()) {
                Ok(plain) => Self::plaintext(plain),
                Err(e) => Err(SecurityError::DecryptFailed { detail: aead_error_text(&e) }),
            },
        }
    }

    fn plaintext(plain: Vec<u8>) -> (r: Result<String, SecurityError>)
        ensures
            match r {
                Ok(text) => plaintext_text(plain@) == Ok::<Seq<char>, SecurityFault>(text@),
                Err(e) => plaintext_text(plain@) == Err::<Seq<char>, SecurityFault>(e@),
            },
    {
        match String::from_utf8(plain) {
            Ok(text) => Ok(text),
            Err(_) => Err(SecurityError::CredentialNotUtf8),
        }
    }
}

// ---------------------------------------------------------------------------
// Laws
// ---------------------------------------------------------------------------

proof fn lemma_hex_digit(d: int)
    requires
        0 <= d < 16,
    ensures
        '\0' <= hex_digit(d) <= '\u{7f}',
        hex_value(hex_digit(d) as u8) == Some(d),
{
}

/// A master key created for a missing keyring entry is read back unchanged:
/// the hex text handed out for storing stands for exactly that key.
pub proof fn law_created_key_reads_back(key: Seq<u8>)
    requires
        key.len() == 32,
    ensures
        stored_master_key(hex_text(key)) == Some(key),
{
    let t = hex_text(key);
    assert forall|i: int| 0 <= i < t.len() implies '\0' <= #[trigger] t[i] <= '\u{7f}' by {
        if i % 2 == 0 {
            lemma_hex_digit(high_nibble(key[i / 2]));
        } else {
            lemma_hex_digit(low_nibble(key[i / 2]));
        }
    }
    assert(is_ascii_chars(t));
    vstd::utf8::is_ascii_chars_encode_utf8(t);
    let b = encode_utf8(t);
    assert forall|i: int| 0 <= i < b.len() implies #[trigger] hex_value(b[i]) == Some(
        if i % 2 == 0 { high_nibble(key[i / 2]) } else { low_nibble(key[i / 2]) },
    ) by {
        assert(b[i] == t[i] as u8);
        if i % 2 == 0 {
            lemma_hex_digit(high_nibble(key[i / 2]));
        } else {
            lemma_hex_digit(low_nibble(key[i / 2]));
        }
    }
    assert(!exists|i: int| 0 <= i < b.len() && #[trigger] hex_value(b[i]) is None);
    let d = hex_bytes(b)->0;
    assert forall|i: int| 0 <= i < 32 implies d[i] == key[i] by {
        assert(hex_value(b[2 * i]) == Some(high_nibble(key[i])));
        assert(hex_value(b[2 * i + 1]) == Some(low_nibble(key[i])));
    }
    assert(d =~= key);
}

/// A stored credential reads back as the text that was sealed into it, in
/// either format: sealed under the 12-byte nonce stored in front of it, or
/// (legacy) sealed under the fixed nonce, which is tried whenever the text is
/// too short for a nonce prefix or its own nonce does not authenticate.
pub proof fn law_credential_round_trip(key: Seq<u8>, stored: Seq<char>, combined: Seq<u8>, plain: Seq<u8>)
    requires
        base64_standard_decode(stored) == Some(combined),
        valid_utf8(plain),
    ensures
        combined.len() >= 12 && aes256_gcm_open(key, combined.take(12), combined.skip(12)) == Some(
            plain,
        ) ==> credential_plaintext(key, stored) == Ok::<Seq<char>, SecurityFault>(decode_utf8(plain)),
        (combined.len() < 12 || aes256_gcm_open(key, combined.take(12), combined.skip(12)) is None)
            && aes256_gcm_open(key, legacy_nonce(), combined) == Some(plain) ==> credential_plaintext(
            key,
            stored,
        ) == Ok::<Seq<char>, SecurityFault>(decode_utf8(plain)),
{
}

} // verus!
