use subtle_crypto::algorithm::{
    normalize_algorithm, Algorithm, AlgorithmIdentifier, AlgorithmName, Operation,
    SubtleAesCbcParams, SubtleAesCtrParams,
};
use subtle_crypto::error::Error;
use subtle_crypto::key::{CryptoKey, KeyData, KeyFormat, KeyUsage};
use subtle_crypto::subtle::SubtleCrypto;

fn hex(s: &str) -> Vec<u8> {
    (0..s.len()).step_by(2).map(|i| u8::from_str_radix(&s[i..i + 2], 16).unwrap()).collect()
}

fn aes_key(engine: &SubtleCrypto, name: &str, bytes: &[u8]) -> CryptoKey {
    engine
        .import_key(
            KeyFormat::Raw,
            KeyData::Bytes(bytes.to_vec()),
            AlgorithmIdentifier::String(name.to_string()),
            true,
            vec![KeyUsage::Encrypt, KeyUsage::Decrypt],
        )
        .unwrap()
}

fn cbc(iv: &[u8]) -> AlgorithmIdentifier {
    let mut d = Algorithm::named("AES-CBC".to_string());
    d.iv = Some(iv.to_vec());
    AlgorithmIdentifier::Object(d)
}

fn ctr(counter: &[u8], length: u32) -> AlgorithmIdentifier {
    let mut d = Algorithm::named("AES-CTR".to_string());
    d.counter = Some(counter.to_vec());
    d.length = Some(length);
    AlgorithmIdentifier::Object(d)
}

#[test]
fn cbc_matches_the_reference_ciphertext() {
    let engine = SubtleCrypto::new();
    let key = aes_key(&engine, "AES-CBC", &[0x42; 16]);
    let plaintext = b"hello world! this is my plaintext.";
    let expected = hex(
        "c7fe247ef97b21f07cbdd26cb5d346bfd27867cb00d9486723e159978fb9a5f914cfb228a710de4171e396e7b6cf859e",
    );
    let ct = engine.encrypt(cbc(&[0x24; 16]), &key, plaintext).unwrap();
    assert_eq!(ct, expected);
    let pt = engine.decrypt(cbc(&[0x24; 16]), &key, &ct).unwrap();
    assert_eq!(pt, plaintext.to_vec());
}

#[test]
fn cbc_round_trips_for_every_key_size() {
    let engine = SubtleCrypto::new();
    for size in [16usize, 24, 32] {
        let key_bytes: Vec<u8> = (0..size as u8).collect();
        let key = aes_key(&engine, "AES-CBC", &key_bytes);
        let iv: Vec<u8> = (100..116).collect();
        for len in [0usize, 1, 5, 15, 16, 17, 32, 33, 100] {
            let plaintext: Vec<u8> = (0..len).map(|i| (i * 7 + 3) as u8).collect();
            let ct = engine.encrypt(cbc(&iv), &key, &plaintext).unwrap();
            assert_eq!(ct.len() % 16, 0);
            assert!(ct.len() > plaintext.len());
            assert_eq!(ct.len(), (len / 16 + 1) * 16);
            let pt = engine.decrypt(cbc(&iv), &key, &ct).unwrap();
            assert_eq!(pt, plaintext);
        }
    }
}

#[test]
fn cbc_iv_must_have_16_bytes() {
    let engine = SubtleCrypto::new();
    let key = aes_key(&engine, "AES-CBC", &[1; 16]);
    assert_eq!(engine.encrypt(cbc(&[0; 15]), &key, b"abc"), Err(Error::Operation));
    assert_eq!(engine.decrypt(cbc(&[0; 17]), &key, &[0; 16]), Err(Error::Operation));
}

#[test]
fn cbc_ciphertext_of_bad_length_fails_to_decrypt() {
    let engine = SubtleCrypto::new();
    let key = aes_key(&engine, "AES-CBC", &[1; 16]);
    assert_eq!(engine.decrypt(cbc(&[0; 16]), &key, &[]), Err(Error::Operation));
    assert_eq!(engine.decrypt(cbc(&[0; 16]), &key, &[0; 15]), Err(Error::Operation));
    assert_eq!(engine.decrypt(cbc(&[0; 16]), &key, &[0; 17]), Err(Error::Operation));
}

#[test]
fn ctr_matches_the_reference_ciphertext() {
    let engine = SubtleCrypto::new();
    let key = aes_key(&engine, "AES-CTR", &hex("2b7e151628aed2a6abf7158809cf4f3c"));
    let counter = hex("f0f1f2f3f4f5f6f7f8f9fafbfcfdfeff");
    let plaintext = hex("6bc1bee22e409f96e93d7e117393172aae2d8a571e03ac9c9eb76fac45af8e51");
    let expected = hex("874d6191b620e3261bef6864990db6ce9806f66b7970fdff8617187bb9fffdff");
    let ct = engine.encrypt(ctr(&counter, 64), &key, &plaintext).unwrap();
    assert_eq!(ct, expected);
    let pt = engine.decrypt(ctr(&counter, 64), &key, &ct).unwrap();
    assert_eq!(pt, plaintext);
}

#[test]
fn ctr_is_its_own_inverse() {
    let engine = SubtleCrypto::new();
    for size in [16usize, 24, 32] {
        let key_bytes: Vec<u8> = (0..size).map(|i| (i * 13) as u8).collect();
        let key = aes_key(&engine, "AES-CTR", &key_bytes);
        for bits in [1u32, 64, 127, 128] {
            for len in [0usize, 1, 16, 31, 70] {
                let data: Vec<u8> = (0..len).map(|i| (i * 5 + 1) as u8).collect();
                let once = engine.encrypt(ctr(&[0xfe; 16], bits), &key, &data).unwrap();
                assert_eq!(once.len(), data.len());
                let twice = engine.encrypt(ctr(&[0xfe; 16], bits), &key, &once).unwrap();
                assert_eq!(twice, data);
            }
        }
    }
}

#[test]
fn ctr_counter_block_and_length_bounds() {
    let engine = SubtleCrypto::new();
    let key = aes_key(&engine, "AES-CTR", &[3; 16]);
    assert_eq!(engine.encrypt(ctr(&[0; 16], 0), &key, b"x"), Err(Error::Operation));
    assert_eq!(engine.encrypt(ctr(&[0; 16], 129), &key, b"x"), Err(Error::Operation));
    assert_eq!(engine.encrypt(ctr(&[0; 15], 64), &key, b"x"), Err(Error::Operation));
    assert!(engine.encrypt(ctr(&[0; 16], 128), &key, b"x").is_ok());
    let near_wrap = [0xffu8; 16];
    let data = vec![0x11u8; 48];
    let once = engine.encrypt(ctr(&near_wrap, 128), &key, &data).unwrap();
    assert_eq!(engine.decrypt(ctr(&near_wrap, 128), &key, &once).unwrap(), data);
}

#[test]
fn ciphers_refuse_a_pbkdf2_key() {
    let engine = SubtleCrypto::new();
    let key = engine
        .import_key_pbkdf2(KeyFormat::Raw, b"password", false, vec![KeyUsage::DeriveBits])
        .unwrap();
    let cbc_params = SubtleAesCbcParams { name: AlgorithmName::AesCbc, iv: vec![0; 16] };
    assert_eq!(engine.encrypt_aes_cbc(cbc_params, &key, b"abc"), Err(Error::Data));
    let cbc_params = SubtleAesCbcParams { name: AlgorithmName::AesCbc, iv: vec![0; 16] };
    assert_eq!(engine.decrypt_aes_cbc(cbc_params, &key, &[0; 16]), Err(Error::Data));
    let ctr_params =
        SubtleAesCtrParams { name: AlgorithmName::AesCtr, counter: vec![0; 16], length: 64 };
    assert_eq!(engine.encrypt_decrypt_aes_ctr(ctr_params, &key, b"abc"), Err(Error::Data));
}

#[test]
fn key_of_another_algorithm_is_refused() {
    let engine = SubtleCrypto::new();
    let key = aes_key(&engine, "AES-CTR", &[3; 16]);
    assert_eq!(engine.encrypt(cbc(&[0; 16]), &key, b"abc"), Err(Error::InvalidAccess));
    assert_eq!(engine.decrypt(cbc(&[0; 16]), &key, &[0; 16]), Err(Error::InvalidAccess));
}

#[test]
fn cipher_descriptor_errors_come_first() {
    let engine = SubtleCrypto::new();
    let key = aes_key(&engine, "AES-CBC", &[3; 16]);
    let r = engine.encrypt(AlgorithmIdentifier::String("AES-CBC".to_string()), &key, b"abc");
    assert_eq!(r, Err(Error::Syntax));
    let r = engine.encrypt(AlgorithmIdentifier::String("SHA-256".to_string()), &key, b"abc");
    assert_eq!(r, Err(Error::NotSupported));
    let r = engine.decrypt(AlgorithmIdentifier::String("AES-KW".to_string()), &key, b"abc");
    assert_eq!(r, Err(Error::NotSupported));
}

#[test]
fn deferred_halves_match_the_whole_operations() {
    let engine = SubtleCrypto::new();
    let key = aes_key(&engine, "AES-CBC", &[9; 32]);
    let iv = [4u8; 16];
    let whole = engine.encrypt(cbc(&iv), &key, b"two phases").unwrap();
    let normalized = normalize_algorithm(cbc(&iv), Operation::Encrypt).unwrap();
    let deferred = engine.encrypt_normalized(normalized, &key, b"two phases").unwrap();
    assert_eq!(whole, deferred);
    let normalized = normalize_algorithm(cbc(&iv), Operation::Decrypt).unwrap();
    assert_eq!(engine.decrypt_normalized(normalized, &key, &whole).unwrap(), b"two phases".to_vec());
    let normalized = normalize_algorithm(cbc(&iv), Operation::Decrypt).unwrap();
    assert!(engine.encrypt_normalized(normalized, &key, b"x").is_ok());
    let digest = normalize_algorithm(AlgorithmIdentifier::String("SHA-1".to_string()), Operation::Digest).unwrap();
    assert_eq!(engine.encrypt_normalized(digest, &key, b"x"), Err(Error::NotSupported));
}
