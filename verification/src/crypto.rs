use aes_gcm::aead::{Aead, AeadCore, OsRng};
use aes_gcm::{Aes256Gcm, KeyInit, Nonce};
use argon2::Argon2;
use base64::Engine;
use rand::RngCore;
use vstd::prelude::*;
use vstd::utf8::*;

use crate::text::{joined, owned, string_from_utf8};
use crate::wipe::{wipe_bytes, wipe_key_bytes};

verus! {

broadcast use vstd::utf8::encode_utf8_valid_utf8, vstd::utf8::encode_utf8_decode_utf8;

/// Length of the salt that the master key is derived with.
pub const SALT_LEN: usize = 32;

/// Length of the AES-GCM nonce that leads every sealed blob.
pub const NONCE_LEN: usize = 12;

/// The text sealed under the master key to recognise it again.
pub const VERIFIER_PLAINTEXT: &'static str = "RUSTY-VAULT-VERIFIER";

/// The longest plaintext, in bytes, that AES-GCM seals.
pub open spec fn max_plaintext_len() -> int {
    0x10_0000_0000
}

/// The character of the standard base64 alphabet for a six-bit value.
pub open spec fn base64_digit(v: u8) -> char {
    if v < 26 {
        ((v + 65) as u32) as char
    } else if v < 52 {
        ((v + 71) as u32) as char
    } else if v < 62 {
        ((v - 4) as u32) as char
    } else if v == 62 {
        '+'
    } else {
        '/'
    }
}

/// The standard base64 alphabet with padding, encoding: each group of three
/// bytes becomes four characters; a last group of one or two bytes is
/// padded with `=` to four.
pub open spec fn base64_standard_encode(bytes: Seq<u8>) -> Seq<char>
    decreases bytes.len(),
{
    if bytes.len() == 0 {
        Seq::empty()
    } else if bytes.len() == 1 {
        seq![base64_digit(bytes[0] >> 2), base64_digit((bytes[0] & 3) << 4), '=', '=']
    } else if bytes.len() == 2 {
        seq![
            base64_digit(bytes[0] >> 2),
            base64_digit(((bytes[0] & 3) << 4) | (bytes[1] >> 4)),
            base64_digit((bytes[1] & 15) << 2),
            '=',
        ]
    } else {
        seq![
            base64_digit(bytes[0] >> 2),
            base64_digit(((bytes[0] & 3) << 4) | (bytes[1] >> 4)),
            base64_digit(((bytes[1] & 15) << 2) | (bytes[2] >> 6)),
            base64_digit(bytes[2] & 63),
        ] + base64_standard_encode(bytes.subrange(3, bytes.len() as int))
    }
}

/// Base64 text has four characters for every started group of three bytes,
/// all of them from the alphabet or padding.
pub proof fn lemma_base64_encode_shape(bytes: Seq<u8>)
    ensures
        base64_standard_encode(bytes).len() == 4 * ((bytes.len() + 2) / 3),
        forall|i: int|
            0 <= i < base64_standard_encode(bytes).len() ==> is_base64_char(
                #[trigger] base64_standard_encode(bytes)[i],
            ),
    decreases bytes.len(),
{
    if bytes.len() >= 3 {
        let rest = bytes.subrange(3, bytes.len() as int);
        lemma_base64_encode_shape(rest);
        let head = seq![
            base64_digit(bytes[0] >> 2),
            base64_digit(((bytes[0] & 3) << 4) | (bytes[1] >> 4)),
            base64_digit(((bytes[1] & 15) << 2) | (bytes[2] >> 6)),
            base64_digit(bytes[2] & 63),
        ];
        assert(base64_standard_encode(bytes) == head + base64_standard_encode(rest));
        assert forall|i: int| 0 <= i < base64_standard_encode(bytes).len() implies is_base64_char(
            #[trigger] base64_standard_encode(bytes)[i],
        ) by {
            if i >= 4 {
                assert(base64_standard_encode(bytes)[i] == base64_standard_encode(rest)[i - 4]);
            }
        }
    }
}

/// The standard base64 alphabet with padding, decoding; `None` on malformed text.
pub uninterp spec fn base64_standard_decode(text: Seq<char>) -> Option<Seq<u8>>;

/// AES-256-GCM sealing (ciphertext followed by the tag), without associated data.
pub uninterp spec fn aes256gcm_seal(key: Seq<u8>, nonce: Seq<u8>, plaintext: Seq<u8>) -> Option<
    Seq<u8>,
>;

/// AES-256-GCM opening, without associated data; `None` when the tag does not verify.
pub uninterp spec fn aes256gcm_open(key: Seq<u8>, nonce: Seq<u8>, sealed: Seq<u8>) -> Option<
    Seq<u8>,
>;

/// Argon2id with the default parameters, 32 output bytes.
pub uninterp spec fn argon2id_default(password: Seq<char>, salt: Seq<u8>) -> Option<Seq<u8>>;

/// A character of the standard base64 alphabet, or its padding.
pub open spec fn is_base64_char(c: char) -> bool {
    ||| 'A' <= c <= 'Z'
    ||| 'a' <= c <= 'z'
    ||| '0' <= c <= '9'
    ||| c == '+'
    ||| c == '/'
    ||| c == '='
}

pub open spec fn bytes_view(o: Option<Vec<u8>>) -> Option<Seq<u8>> {
    match o {
        Some(v) => Some(v@),
        None => None,
    }
}

pub open spec fn key_bytes_view(o: Option<[u8; 32]>) -> Option<Seq<u8>> {
    match o {
        Some(a) => Some(a@),
        None => None,
    }
}

/// `Engine::encode` of `base64::engine::general_purpose::STANDARD`: the
/// standard padded encoding of `bytes`, which that engine's `decode` turns
/// back into `bytes`.
#[verifier::external_body]
pub(crate) fn base64_encode(bytes: &[u8]) -> (s: String)
    ensures
        s@ == base64_standard_encode(bytes@),
        base64_standard_decode(s@) == Some(bytes@),
{
    base64::engine::general_purpose::STANDARD.encode(bytes)
}

/// `Engine::decode` of `base64::engine::general_purpose::STANDARD`; on failure
/// the error's text.
#[verifier::external_body]
pub(crate) fn base64_decode(text: &str) -> (r: Result<Vec<u8>, String>)
    ensures
        r is Ok <==> base64_standard_decode(text@) is Some,
        r matches Ok(b) ==> base64_standard_decode(text@) == Some(b@),
{
    match base64::engine::general_purpose::STANDARD.decode(text) {
        Ok(b) => Ok(b),
        Err(e) => Err(e.to_string()),
    }
}

/// `Aead::encrypt` of `Aes256Gcm` with no associated data. Its source refuses
/// exactly the plaintexts longer than 2^36 bytes; the result is the plaintext's
/// length plus the 16-byte tag, and `Aead::decrypt` with the same key and
/// nonce gives the plaintext back.
#[verifier::external_body]
fn aes_seal(key: &[u8; 32], nonce: &[u8; 12], plaintext: &[u8]) -> (r: Option<Vec<u8>>)
    ensures
        bytes_view(r) == aes256gcm_seal(key@, nonce@, plaintext@),
        r is Some <==> plaintext@.len() <= max_plaintext_len(),
        r matches Some(c) ==> c@.len() == plaintext@.len() + 16 && aes256gcm_open(
            key@,
            nonce@,
            c@,
        ) == Some(plaintext@),
{
    Aes256Gcm::new(key.into()).encrypt(Nonce::from_slice(nonce), plaintext).ok()
}

/// `Aead::decrypt` of `Aes256Gcm` with no associated data.
/// (`Nonce::from_slice` panics unless the nonce has 12 bytes.)
#[verifier::external_body]
fn aes_open(key: &[u8; 32], nonce: &[u8], sealed: &[u8]) -> (r: Option<Vec<u8>>)
    requires
        nonce@.len() == NONCE_LEN,
    ensures
        bytes_view(r) == aes256gcm_open(key@, nonce@, sealed@),
{
    Aes256Gcm::new(key.into()).decrypt(Nonce::from_slice(nonce), sealed).ok()
}

/// `AeadCore::generate_nonce` of `Aes256Gcm` with the operating system's
/// random source: a fresh random nonce, of which nothing more is known.
#[verifier::external_body]
fn random_nonce() -> (n: [u8; 12]) {
    Aes256Gcm::generate_nonce(&mut OsRng).into()
}

/// `RngCore::fill_bytes` of the operating system's random source: the buffer
/// holds random bytes afterwards, of which nothing more is known.
#[verifier::external_body]
fn fill_random(buf: &mut [u8; 32]) {
    OsRng.fill_bytes(buf);
}

/// `Argon2::hash_password_into` of `Argon2::default()` into 32 output bytes.
/// `PasswordHasher::hash_password` with a salt string that encodes the same
/// bytes runs exactly this. With a 32-byte salt its source refuses exactly
/// the passwords longer than `u32::MAX` bytes.
#[verifier::external_body]
fn argon2_hash(password: &str, salt: &[u8; 32]) -> (r: Option<[u8; 32]>)
    ensures
        key_bytes_view(r) == argon2id_default(password@, salt@),
        r is Some <==> encode_utf8(password@).len() <= 0xffff_ffff,
{
    let mut out = [0u8; 32];
    match Argon2::default().hash_password_into(password.as_bytes(), salt, &mut out) {
        Ok(()) => Some(out),
        Err(_) => None,
    }
}

/// 32-byte AES-256 key derived from the master password.
#[derive(Clone)]
pub struct MasterKey(pub [u8; 32]);

impl View for MasterKey {
    type V = Seq<u8>;

    open spec fn view(&self) -> Seq<u8> {
        self.0@
    }
}

/// A key whose bytes have all been overwritten with zeros.
pub open spec fn zeroed_key() -> Seq<u8> {
    Seq::new(32, |i: int| 0u8)
}

impl MasterKey {
    pub fn as_bytes(&self) -> (r: &[u8; 32])
        ensures
            r@ == self@,
    {
        &self.0
    }

    /// Overwrite the key material with zeros.
    pub fn zeroize(&mut self)
        ensures
            final(self)@ == zeroed_key(),
    {
        wipe_key_bytes(&mut self.0);
    }
}

/// Why a cryptographic operation failed.
#[derive(Clone, Debug, PartialEq, Eq)]
pub enum CryptoError {
    /// Argon2 refused the password (it is too long).
    HashingFailed,
    /// AES-GCM refused to seal the plaintext.
    EncryptionFailed,
    /// The stored blob is not base64; the decoder's explanation.
    InvalidBase64(String),
    /// The decoded blob is shorter than a nonce.
    TooShort,
    /// The tag did not verify: wrong key or damaged blob.
    DecryptionFailed,
    /// The opened plaintext is not UTF-8.
    InvalidUtf8,
}

/// Why a sealed blob does not open, as the specification sees it.
#[derive(Clone, Copy, Debug, PartialEq, Eq, Structural)]
pub enum DecryptFailure {
    InvalidBase64,
    TooShort,
    DecryptionFailed,
    InvalidUtf8,
}

impl CryptoError {
    /// The failure that a decryption error stands for.
    pub open spec fn decrypt_failure(self) -> Option<DecryptFailure> {
        match self {
            CryptoError::InvalidBase64(_) => Some(DecryptFailure::InvalidBase64),
            CryptoError::TooShort => Some(DecryptFailure::TooShort),
            CryptoError::DecryptionFailed => Some(DecryptFailure::DecryptionFailed),
            CryptoError::InvalidUtf8 => Some(DecryptFailure::InvalidUtf8),
            _ => None,
        }
    }

    pub open spec fn message_spec(self) -> Seq<char> {
        match self {
            CryptoError::HashingFailed => "Argon2 hashing failed: Password"@,
            CryptoError::EncryptionFailed => "AES encryption failed: aead::Error"@,
            CryptoError::InvalidBase64(detail) => "ciphertext is not valid base64: "@ + detail@,
            CryptoError::TooShort => "ciphertext too short (missing nonce)"@,
            CryptoError::DecryptionFailed => "AES decryption failed: aead::Error"@,
            CryptoError::InvalidUtf8 => "decrypted bytes are not valid UTF-8"@,
        }
    }

    /// The text shown to the user for this error.
    pub fn message(&self) -> (r: String)
        ensures
            r@ == self.message_spec(),
    {
        match self {
            CryptoError::HashingFailed => owned("Argon2 hashing failed: Password"),
            CryptoError::EncryptionFailed => owned("AES encryption failed: aead::Error"),
            CryptoError::InvalidBase64(detail) => joined(
                "ciphertext is not valid base64: ",
                detail.as_str(),
            ),
            CryptoError::TooShort => owned("ciphertext too short (missing nonce)"),
            CryptoError::DecryptionFailed => owned("AES decryption failed: aead::Error"),
            CryptoError::InvalidUtf8 => owned("decrypted bytes are not valid UTF-8"),
        }
    }
}

/// What opening `blob` (base64 of nonce followed by sealed bytes) with `key` gives.
pub open spec fn decrypt_spec(key: Seq<u8>, blob: Seq<char>) -> Result<Seq<char>, DecryptFailure> {
    match base64_standard_decode(blob) {
        None => Err(DecryptFailure::InvalidBase64),
        Some(bytes) => if bytes.len() < NONCE_LEN {
            Err(DecryptFailure::TooShort)
        } else {
            match aes256gcm_open(
                key,
                bytes.subrange(0, NONCE_LEN as int),
                bytes.subrange(NONCE_LEN as int, bytes.len() as int),
            ) {
                None => Err(DecryptFailure::DecryptionFailed),
                Some(plain) => if valid_utf8(plain) {
                    Ok(decode_utf8(plain))
                } else {
                    Err(DecryptFailure::InvalidUtf8)
                },
            }
        },
    }
}

/// The blob that sealing `plaintext` under `key` with `nonce` yields, if any.
pub open spec fn sealed_blob(key: Seq<u8>, nonce: Seq<u8>, plaintext: Seq<char>) -> Option<
    Seq<char>,
> {
    match aes256gcm_seal(key, nonce, encode_utf8(plaintext)) {
        Some(sealed) => Some(base64_standard_encode(nonce + sealed)),
        None => None,
    }
}

/// Whether `verifier` opens under `key` to the verifier text.
pub open spec fn verifier_accepts(key: Seq<u8>, verifier: Seq<char>) -> bool {
    decrypt_spec(key, verifier) == Ok::<Seq<char>, DecryptFailure>(VERIFIER_PLAINTEXT@)
}

pub fn gen_salt() -> (salt: [u8; SALT_LEN]) {
    let mut salt = [0u8; 32];
    fill_random(&mut salt);
    salt
}

pub fn derive_key(password: &str, salt: &[u8; SALT_LEN]) -> (r: Result<MasterKey, CryptoError>)
    ensures
        match argon2id_default(password@, salt@) {
            Some(k) => r matches Ok(key) && key@ == k,
            None => r == Err::<MasterKey, CryptoError>(CryptoError::HashingFailed),
        },
        r is Ok <==> encode_utf8(password@).len() <= 0xffff_ffff,
{
    match argon2_hash(password, salt) {
        Some(out) => Ok(MasterKey(out)),
        None => Err(CryptoError::HashingFailed),
    }
}

pub fn encrypt(key: &MasterKey, plaintext: &str) -> (r: Result<String, CryptoError>)
    ensures
        r is Ok <==> encode_utf8(plaintext@).len() <= max_plaintext_len(),
        r matches Err(e) ==> e == CryptoError::EncryptionFailed,
        r matches Ok(blob) ==> base64_standard_decode(blob@) matches Some(bytes) && bytes.len()
            == NONCE_LEN + encode_utf8(plaintext@).len() + 16 && blob@.len() == 4 * ((bytes.len()
            + 2) / 3),
        r matches Ok(blob) ==> forall|i: int|
            0 <= i < blob@.len() ==> is_base64_char(#[trigger] blob@[i]),
        r matches Ok(blob) ==> exists|nonce: Seq<u8>|
            nonce.len() == NONCE_LEN && sealed_blob(key@, nonce, plaintext@) == Some(blob@),
        r matches Ok(blob) ==> decrypt_spec(key@, blob@) == Ok::<Seq<char>, DecryptFailure>(
            plaintext@,
        ),
        r matches Ok(blob) ==> blob@.len() > 0,
{
    let nonce = random_nonce();
    let bytes = plaintext.as_bytes();
    let sealed = match aes_seal(&key.0, &nonce, bytes) {
        Some(c) => c,
        None => return Err(CryptoError::EncryptionFailed),
    };
    let mut blob: Vec<u8> = Vec::new();
    blob.extend_from_slice(nonce.as_slice());
    blob.extend_from_slice(sealed.as_slice());
    let text = base64_encode(blob.as_slice());
    proof {
        lemma_base64_encode_shape(blob@);
        let b = blob@;
        assert(b =~= nonce@ + sealed@);
        assert(b.subrange(0, NONCE_LEN as int) =~= nonce@);
        assert(b.subrange(NONCE_LEN as int, b.len() as int) =~= sealed@);
        assert(sealed_blob(key@, nonce@, plaintext@) == Some(text@));
    }
    Ok(text)
}

pub fn decrypt(key: &MasterKey, blob: &str) -> (r: Result<String, CryptoError>)
    ensures
        match r {
            Ok(s) => decrypt_spec(key@, blob@) == Ok::<Seq<char>, DecryptFailure>(s@),
            Err(e) => e.decrypt_failure() matches Some(f) && decrypt_spec(key@, blob@) == Err::<
                Seq<char>,
                DecryptFailure,
            >(f),
        },
{
    let mut decoded = match base64_decode(blob) {
        Ok(b) => b,
        Err(e) => return Err(CryptoError::InvalidBase64(e)),
    };
    if decoded.len() < NONCE_LEN {
        wipe_bytes(&mut decoded);
        return Err(CryptoError::TooShort);
    }
    let opened = {
        let (nonce, sealed) = decoded.as_slice().split_at(NONCE_LEN);
        assert(nonce@ =~= decoded@.subrange(0, NONCE_LEN as int));
        assert(sealed@ =~= decoded@.subrange(NONCE_LEN as int, decoded@.len() as int));
        aes_open(&key.0, nonce, sealed)
    };
    wipe_bytes(&mut decoded);
    match opened {
        None => Err(CryptoError::DecryptionFailed),
        Some(plain) => match string_from_utf8(plain) {
            Ok(s) => Ok(s),
            Err(bad) => {
                let mut bad = bad;
                wipe_bytes(&mut bad);
                Err(CryptoError::InvalidUtf8)
            },
        },
    }
}

/// Base64 text is ASCII, so each character takes one byte.
pub proof fn lemma_base64_text_is_ascii(text: Seq<char>)
    requires
        forall|i: int| 0 <= i < text.len() ==> is_base64_char(#[trigger] text[i]),
    ensures
        is_ascii_chars(text),
        encode_utf8(text).len() == text.len(),
{
    assert(is_ascii_chars(text));
    is_ascii_chars_encode_utf8(text);
}

/// The verifier text is twenty ASCII characters, so twenty bytes.
proof fn lemma_verifier_text_len()
    ensures
        encode_utf8(VERIFIER_PLAINTEXT@).len() == 20,
{
    reveal_strlit("RUSTY-VAULT-VERIFIER");
    assert(is_ascii_chars(VERIFIER_PLAINTEXT@));
    is_ascii_chars_encode_utf8(VERIFIER_PLAINTEXT@);
}

pub fn make_verifier(key: &MasterKey) -> (r: Result<String, CryptoError>)
    ensures
        r is Ok,
        r matches Ok(v) ==> exists|nonce: Seq<u8>|
            nonce.len() == NONCE_LEN && sealed_blob(key@, nonce, VERIFIER_PLAINTEXT@) == Some(v@),
        r matches Ok(v) ==> verifier_accepts(key@, v@),
        r matches Ok(v) ==> base64_standard_decode(v@) matches Some(b) && b.len() == 48
            && v@.len() == 64 && encode_utf8(v@).len() == 64,
{
    proof {
        lemma_verifier_text_len();
    }
    let r = encrypt(key, VERIFIER_PLAINTEXT);
    proof {
        if let Ok(v) = &r {
            lemma_base64_text_is_ascii(v@);
        }
    }
    r
}

pub fn check_verifier(key: &MasterKey, verifier: &str) -> (r: Result<bool, CryptoError>)
    ensures
        r == Ok::<bool, CryptoError>(verifier_accepts(key@, verifier@)),
{
    match decrypt(key, verifier) {
        Ok(plain) => {
            let expected = owned(VERIFIER_PLAINTEXT);
            Ok(plain == expected)
        },
        Err(_) => Ok(false),
    }
}

} // verus!
