use aes_gcm::aead::Aead;
use aes_gcm::{Aes256Gcm, KeyInit, Nonce};
use base64::Engine;
use rusty_vault::crypto::{
    check_verifier, decrypt, derive_key, encrypt, gen_salt, make_verifier, CryptoError, MasterKey,
    SALT_LEN, VERIFIER_PLAINTEXT,
};

#[test]
fn encrypt_decrypt_roundtrip() {
    let password = "correct horse battery staple";
    let salt = gen_salt();
    let key = derive_key(password, &salt).unwrap();
    let plaintext = "hunter2";
    let blob = encrypt(&key, plaintext).unwrap();
    assert_eq!(decrypt(&key, &blob).unwrap(), plaintext);
}

#[test]
fn wrong_key_fails_verification() {
    let salt = gen_salt();
    let good = derive_key("master", &salt).unwrap();
    let bad = derive_key("not-master", &salt).unwrap();
    let verifier = make_verifier(&good).unwrap();
    assert!(check_verifier(&good, &verifier).unwrap());
    assert!(!check_verifier(&bad, &verifier).unwrap());
}

#[test]
fn different_keys_yield_different_ciphertexts() {
    let salt = gen_salt();
    let key1 = derive_key("one", &salt).unwrap();
    let key2 = derive_key("two", &salt).unwrap();
    let blob1 = encrypt(&key1, "secret").unwrap();
    let blob2 = encrypt(&key2, "secret").unwrap();
    assert_ne!(blob1, blob2);
}

#[test]
fn master_key_zeroize_clears_bytes() {
    let salt = gen_salt();
    let mut key = derive_key("zeroize-me", &salt).unwrap();
    let before = key.as_bytes().to_vec();
    assert!(before.iter().any(|&b| b != 0));
    key.zeroize();
    assert!(key.as_bytes().iter().all(|&b| b == 0));
}

#[test]
fn master_key_zeroized_on_drop() {
    let salt = gen_salt();
    let key = derive_key("drop-me", &salt).unwrap();
    let mut raw = [0u8; 32];
    raw.copy_from_slice(key.as_bytes());
    assert!(raw.iter().any(|&b| b != 0));
    // Move into a scoped binding and drop it.
    {
        let _k = key;
    }
    let mut copy = MasterKey(raw);
    copy.zeroize();
    assert!(copy.as_bytes().iter().all(|&b| b == 0));
}

#[test]
fn derived_key_depends_on_password_and_salt_only() {
    let salt = [7u8; SALT_LEN];
    let a = derive_key("pw", &salt).unwrap();
    let b = derive_key("pw", &salt).unwrap();
    assert_eq!(a.as_bytes(), b.as_bytes());
    let c = derive_key("pw", &[8u8; SALT_LEN]).unwrap();
    assert_ne!(a.as_bytes(), c.as_bytes());
    // The key is not the password or the salt handed back.
    assert_ne!(a.as_bytes(), &salt);
    assert_ne!(&a.as_bytes()[..2], b"pw");
}

#[test]
fn blob_is_base64_of_nonce_and_sealed_text() {
    let key = MasterKey([3u8; 32]);
    let blob = encrypt(&key, "abc").unwrap();
    // 12 nonce bytes + 3 sealed bytes + 16 tag bytes = 31 bytes -> 44 base64 chars.
    assert_eq!(blob.len(), 44);
    assert_ne!(blob, "abc");
    assert_eq!(decrypt(&key, &blob).unwrap(), "abc");
    // A fresh nonce every time.
    let again = encrypt(&key, "abc").unwrap();
    assert_ne!(blob, again);
    assert_eq!(decrypt(&key, &again).unwrap(), "abc");
    // Decoded: nonce, then the plaintext's bytes, then the tag.
    let unicode = encrypt(&key, "pässwörd ✓").unwrap();
    let bytes = base64::engine::general_purpose::STANDARD
        .decode(&unicode)
        .unwrap();
    assert_eq!(bytes.len(), 12 + "pässwörd ✓".len() + 16);
    assert_eq!(unicode.len(), 4 * ((bytes.len() + 2) / 3));
}

#[test]
fn empty_plaintext_round_trips() {
    let key = MasterKey([9u8; 32]);
    let blob = encrypt(&key, "").unwrap();
    assert!(!blob.is_empty());
    assert_eq!(decrypt(&key, &blob).unwrap(), "");
    let unicode = encrypt(&key, "pässwörd ✓").unwrap();
    assert_eq!(decrypt(&key, &unicode).unwrap(), "pässwörd ✓");
}

#[test]
fn decrypt_reports_each_failure() {
    let key = MasterKey([1u8; 32]);
    match decrypt(&key, "!!!not base64!!!") {
        Err(CryptoError::InvalidBase64(detail)) => assert!(!detail.is_empty()),
        other => panic!("unexpected {:?}", other),
    }
    // "AAAA" decodes to three bytes: shorter than a nonce.
    assert_eq!(decrypt(&key, "AAAA"), Err(CryptoError::TooShort));
    // Sealed under another key: the tag does not verify.
    let other = MasterKey([2u8; 32]);
    let blob = encrypt(&other, "x").unwrap();
    assert_eq!(decrypt(&key, &blob), Err(CryptoError::DecryptionFailed));
    // Twelve nonce bytes and no tag: the tag does not verify either.
    assert_eq!(
        decrypt(&key, "AAAAAAAAAAAAAAAA"),
        Err(CryptoError::DecryptionFailed)
    );
}

#[test]
fn crypto_error_messages() {
    assert_eq!(CryptoError::TooShort.message(), "ciphertext too short (missing nonce)");
    assert_eq!(
        CryptoError::DecryptionFailed.message(),
        "AES decryption failed: aead::Error"
    );
    assert_eq!(
        CryptoError::InvalidUtf8.message(),
        "decrypted bytes are not valid UTF-8"
    );
    assert_eq!(
        CryptoError::InvalidBase64("bad".to_string()).message(),
        "ciphertext is not valid base64: bad"
    );
    assert_eq!(
        CryptoError::EncryptionFailed.message(),
        "AES encryption failed: aead::Error"
    );
    assert_eq!(CryptoError::HashingFailed.message(), "Argon2 hashing failed: Password");
}

#[test]
fn verifier_round_trip() {
    let key = MasterKey([5u8; 32]);
    let v = make_verifier(&key).unwrap();
    assert_eq!(v.len(), 64);
    let decoded = base64::engine::general_purpose::STANDARD.decode(&v).unwrap();
    assert_eq!(decoded.len(), 48);
    assert_eq!(decrypt(&key, &v).unwrap(), VERIFIER_PLAINTEXT);
    assert!(check_verifier(&key, &v).unwrap());
    assert!(!check_verifier(&MasterKey([6u8; 32]), &v).unwrap());
    assert!(!check_verifier(&key, "garbage").unwrap());
    let other_text = encrypt(&key, "something else").unwrap();
    assert!(!check_verifier(&key, &other_text).unwrap());
}

#[test]
fn salts_are_random() {
    let a = gen_salt();
    let b = gen_salt();
    assert_eq!(a.len(), SALT_LEN);
    assert_ne!(a, b);
}

#[test]
fn decrypt_refuses_text_that_is_not_utf8() {
    let raw = [21u8; 32];
    let nonce = [0u8; 12];
    let sealed = Aes256Gcm::new(&raw.into())
        .encrypt(Nonce::from_slice(&nonce), &[0xffu8, 0xfe][..])
        .unwrap();
    let mut blob = nonce.to_vec();
    blob.extend_from_slice(&sealed);
    let text = base64::engine::general_purpose::STANDARD.encode(&blob);
    assert_eq!(decrypt(&MasterKey(raw), &text), Err(CryptoError::InvalidUtf8));
}
