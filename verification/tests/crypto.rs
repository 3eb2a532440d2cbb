use moonshine::crypto::{decrypt, encrypt, encrypt_cbc, GcmError};

fn bytes(digits: &str) -> Vec<u8> {
    hex::decode(digits).unwrap()
}

#[test]
fn gcm_gives_known_ciphertexts() {
    let mut tag = [7u8; 16];
    let sealed = encrypt(&[0u8; 16], &[0u8; 16], &[0u8; 12], &mut tag).unwrap();
    assert_eq!(hex::encode(sealed), "0388dace60b6a392f328c2b971b2fe78");
    assert_eq!(hex::encode(tag), "ab6e47d42cec13bdf53a67b21257bddf");
    let sealed = encrypt(&[], &[0u8; 16], &[0u8; 12], &mut tag).unwrap();
    assert!(sealed.is_empty());
    assert_eq!(hex::encode(tag), "58e2fccefa7e3061367f1d57a4e7455a");
}

#[test]
fn gcm_decrypts_what_it_encrypted() {
    let key: Vec<u8> = (0..16).collect();
    let iv: Vec<u8> = (100..112).collect();
    for len in [0usize, 1, 15, 16, 17, 1000] {
        let plaintext: Vec<u8> = (0..len).map(|i| (i * 7) as u8).collect();
        let mut tag = [0u8; 16];
        let sealed = encrypt(&plaintext, &key, &iv, &mut tag).unwrap();
        assert_eq!(sealed.len(), len);
        assert_eq!(decrypt(&sealed, &key, &iv, &tag), Ok(plaintext));
    }
}

#[test]
fn gcm_refuses_what_was_changed() {
    let key = [1u8; 16];
    let iv = [2u8; 12];
    let mut tag = [0u8; 16];
    let sealed = encrypt(b"attack at dawn", &key, &iv, &mut tag).unwrap();
    let mut broken = sealed.clone();
    broken[0] ^= 1;
    assert_eq!(decrypt(&broken, &key, &iv, &tag), Err(GcmError));
    let mut other = tag;
    other[15] ^= 1;
    assert_eq!(decrypt(&sealed, &key, &iv, &other), Err(GcmError));
    assert_eq!(decrypt(&sealed, &[3u8; 16], &iv, &tag), Err(GcmError));
    assert_eq!(decrypt(&sealed, &key, &[4u8; 12], &tag), Err(GcmError));
    assert_eq!(decrypt(&[], &key, &iv, &[]), Err(GcmError));
}

#[test]
fn cbc_gives_known_ciphertexts() {
    let key = bytes("2b7e151628aed2a6abf7158809cf4f3c");
    let iv = bytes("000102030405060708090a0b0c0d0e0f");
    let block = bytes("6bc1bee22e409f96e93d7e117393172a");
    assert_eq!(
        hex::encode(encrypt_cbc(&block, &key, &iv).unwrap()),
        "7649abac8119b246cee98e9b12e9197d8964e0b149c10b7b682e6e39aaeb731c"
    );
    assert_eq!(hex::encode(encrypt_cbc(b"", &key, &iv).unwrap()), "c84af0b613435d5d9182801a9bd9320b");
    assert_eq!(hex::encode(encrypt_cbc(b"abc", &key, &iv).unwrap()), "f327e7290b9b923d29d949db2c9f75cc");
}

#[test]
fn cbc_refuses_keys_and_vectors_of_other_lengths() {
    assert_eq!(encrypt_cbc(b"x", &[0u8; 15], &[0u8; 16]), Err("Invalid CBC key length".to_string()));
    assert_eq!(encrypt_cbc(b"x", &[0u8; 32], &[0u8; 3]), Err("Invalid CBC key length".to_string()));
    assert_eq!(encrypt_cbc(b"x", &[0u8; 16], &[0u8; 12]), Err("Invalid CBC IV length".to_string()));
}
