use aes_gcm::aead::Aead;
use aes_gcm::KeyInit;
use rust_signer::{
    decode_record, derive_encryption_key, encode_record, encrypt_pk_and_prepare_file_data,
    load_and_decrypt_pk, open_with_key, seal_secret, seal_with_key, EncryptedKeyFile, VaultError,
};

const SECRET: [u8; 32] = [7u8; 32];
const KEY: [u8; 32] = [42u8; 32];
const SALT: [u8; 16] = [1u8; 16];
const NONCE: [u8; 12] = [2u8; 12];

#[test]
fn seal_and_open_with_key_round_trip() {
    let rec = seal_with_key(&SECRET, &KEY, &SALT, &NONCE).unwrap();
    assert_eq!(rec.salt, SALT.to_vec());
    assert_eq!(rec.nonce, NONCE.to_vec());
    assert_eq!(rec.ciphertext.len(), 32 + 16);
    assert_ne!(&rec.ciphertext[..32], &SECRET[..]);
    assert_eq!(open_with_key(&rec, &KEY), Ok(SECRET));
}

#[test]
fn open_with_other_key_fails() {
    let rec = seal_with_key(&SECRET, &KEY, &SALT, &NONCE).unwrap();
    let other = [43u8; 32];
    assert_eq!(open_with_key(&rec, &other), Err(VaultError::Authentication));
}

#[test]
fn tampered_ciphertext_fails() {
    let mut rec = seal_with_key(&SECRET, &KEY, &SALT, &NONCE).unwrap();
    rec.ciphertext[0] ^= 1;
    assert_eq!(open_with_key(&rec, &KEY), Err(VaultError::Authentication));
    let mut rec = seal_with_key(&SECRET, &KEY, &SALT, &NONCE).unwrap();
    let last = rec.ciphertext.len() - 1;
    rec.ciphertext[last] ^= 0x80;
    assert_eq!(open_with_key(&rec, &KEY), Err(VaultError::Authentication));
}

#[test]
fn record_text_round_trip() {
    let rec = seal_with_key(&SECRET, &KEY, &SALT, &NONCE).unwrap();
    let file = encode_record(&rec);
    assert_eq!(file.salt, "AQEBAQEBAQEBAQEBAQEBAQ==");
    assert_eq!(file.nonce, "AgICAgICAgICAgIC");
    let back = decode_record(&file).unwrap();
    assert_eq!(back.salt, rec.salt);
    assert_eq!(back.nonce, rec.nonce);
    assert_eq!(back.ciphertext, rec.ciphertext);
}

#[test]
fn decode_rejects_bad_base64() {
    let rec = seal_with_key(&SECRET, &KEY, &SALT, &NONCE).unwrap();
    let mut file = encode_record(&rec);
    file.ciphertext = "not base64!".to_string();
    assert!(matches!(decode_record(&file), Err(VaultError::Format)));
    let mut file = encode_record(&rec);
    file.salt = "AQEBAQEBAQEBAQEBAQEBAR==".to_string();
    assert!(matches!(decode_record(&file), Err(VaultError::Format)));
}

#[test]
fn decode_rejects_wrong_lengths() {
    let file = EncryptedKeyFile {
        salt: "AQEBAQ==".to_string(),
        nonce: "AgICAgICAgICAgIC".to_string(),
        ciphertext: "AAAA".to_string(),
    };
    assert!(matches!(decode_record(&file), Err(VaultError::Format)));
    let file = EncryptedKeyFile {
        salt: "AQEBAQEBAQEBAQEBAQEBAQ==".to_string(),
        nonce: "AgICAgICAgI=".to_string(),
        ciphertext: "AAAA".to_string(),
    };
    assert!(matches!(decode_record(&file), Err(VaultError::Format)));
}

#[test]
fn derivation_is_deterministic_and_salt_dependent() {
    let a = derive_encryption_key("hunter2", &SALT).unwrap();
    let b = derive_encryption_key("hunter2", &SALT).unwrap();
    assert_eq!(a, b);
    assert_ne!(a, [0u8; 32]);
}

#[test]
fn derivation_rejects_short_salt() {
    assert_eq!(derive_encryption_key("hunter2", &[1u8; 7]), Err(VaultError::Derivation));
}

#[test]
fn password_round_trip() {
    let file = seal_secret(&SECRET, "correct horse", &SALT, &NONCE).unwrap();
    assert_eq!(load_and_decrypt_pk(&file, "correct horse"), Ok(SECRET));
}

#[test]
fn wrong_password_fails() {
    let file = seal_secret(&SECRET, "correct horse", &SALT, &NONCE).unwrap();
    assert_eq!(load_and_decrypt_pk(&file, "battery staple"), Err(VaultError::Authentication));
}

#[test]
fn malformed_record_is_a_format_error() {
    let file = EncryptedKeyFile {
        salt: "???".to_string(),
        nonce: "AgICAgICAgICAgIC".to_string(),
        ciphertext: "AAAA".to_string(),
    };
    assert_eq!(load_and_decrypt_pk(&file, "pw"), Err(VaultError::Format));
}

#[test]
fn fresh_salt_and_nonce_per_record() {
    let a = encrypt_pk_and_prepare_file_data(&SECRET, "pw").unwrap();
    let b = encrypt_pk_and_prepare_file_data(&SECRET, "pw").unwrap();
    assert_ne!(a.salt, b.salt);
    assert_ne!(a.nonce, b.nonce);
    assert_ne!(a.ciphertext, b.ciphertext);
}

#[test]
fn plaintext_of_other_length_is_refused() {
    let cipher = aes_gcm::Aes256Gcm::new(aes_gcm::Key::<aes_gcm::Aes256Gcm>::from_slice(&KEY));
    let short = cipher.encrypt(aes_gcm::Nonce::from_slice(&NONCE), &[7u8; 31][..]).unwrap();
    let rec = rust_signer::EncryptedKeyRecord { salt: SALT.to_vec(), nonce: NONCE.to_vec(), ciphertext: short };
    assert_eq!(open_with_key(&rec, &KEY), Err(VaultError::Authentication));
}

#[test]
fn stored_ciphertext_is_secret_plus_tag() {
    let file = seal_secret(&SECRET, "pw", &SALT, &NONCE).unwrap();
    let rec = decode_record(&file).unwrap();
    assert_eq!(rec.ciphertext.len(), 48);
}
