use subtle_crypto::algorithm::{
    Algorithm, AlgorithmIdentifier, AlgorithmName, SubtleAesKeyGenParams,
};
use subtle_crypto::error::Error;
use subtle_crypto::key::{
    AesExportedKey, Handle, JsonWebKey, KeyAlgorithm, KeyData, KeyFormat, KeyType, KeyUsage,
};
use subtle_crypto::lifecycle::data_to_jwk_params;
use subtle_crypto::subtle::SubtleCrypto;

fn keygen(name: &str, length: u32) -> AlgorithmIdentifier {
    let mut d = Algorithm::named(name.to_string());
    d.length = Some(length);
    AlgorithmIdentifier::Object(d)
}

fn empty_jwk() -> JsonWebKey {
    JsonWebKey {
        kty: None,
        use_: None,
        key_ops: None,
        alg: None,
        ext: None,
        crv: None,
        x: None,
        y: None,
        d: None,
        n: None,
        e: None,
        p: None,
        q: None,
        dp: None,
        dq: None,
        qi: None,
        k: None,
    }
}

fn name(s: &str) -> AlgorithmIdentifier {
    AlgorithmIdentifier::String(s.to_string())
}

#[test]
fn generates_aes_keys_of_each_size() {
    let engine = SubtleCrypto::new();
    for (bits, bytes) in [(128u32, 16usize), (192, 24), (256, 32)] {
        let key = engine
            .generate_key(keygen("aes-cbc", bits), true, vec![KeyUsage::Encrypt, KeyUsage::WrapKey])
            .unwrap();
        assert_eq!(key.key_type(), KeyType::Secret);
        assert!(key.extractable());
        assert_eq!(
            key.algorithm(),
            KeyAlgorithm { name: AlgorithmName::AesCbc, length: Some(bits as u16) }
        );
        assert_eq!(key.usages(), &vec![KeyUsage::Encrypt, KeyUsage::WrapKey]);
        assert_eq!(key.handle().as_bytes().len(), bytes);
        let tag_matches = match (key.handle(), bits) {
            (Handle::Aes128(_), 128) | (Handle::Aes192(_), 192) | (Handle::Aes256(_), 256) => true,
            _ => false,
        };
        assert!(tag_matches);
    }
}

#[test]
fn generated_keys_are_random() {
    let engine = SubtleCrypto::new();
    let a = engine.generate_key(keygen("AES-CTR", 256), false, vec![KeyUsage::Decrypt]).unwrap();
    let b = engine.generate_key(keygen("AES-CTR", 256), false, vec![KeyUsage::Decrypt]).unwrap();
    assert_ne!(a.handle().as_bytes(), b.handle().as_bytes());
    assert_ne!(a.handle().as_bytes(), &[0u8; 32][..]);
}

#[test]
fn key_generation_refusals() {
    let engine = SubtleCrypto::new();
    let e = engine.generate_key(keygen("AES-CBC", 100), true, vec![KeyUsage::Encrypt]);
    assert_eq!(e.unwrap_err(), Error::Operation);
    let e = engine.generate_key(keygen("AES-CBC", 128), true, vec![KeyUsage::Sign]);
    assert_eq!(e.unwrap_err(), Error::Syntax);
    let e = engine.generate_key(keygen("AES-CBC", 128), true, vec![]);
    assert_eq!(e.unwrap_err(), Error::Syntax);
    let e = engine.generate_key(keygen("AES-CBC", 100), true, vec![]);
    assert_eq!(e.unwrap_err(), Error::Operation);
    let e = engine.generate_key(keygen("SHA-256", 128), true, vec![KeyUsage::Encrypt]);
    assert_eq!(e.unwrap_err(), Error::NotSupported);
    let e = engine.generate_key(name("AES-CBC"), true, vec![KeyUsage::Encrypt]);
    assert_eq!(e.unwrap_err(), Error::Syntax);
    let params = SubtleAesKeyGenParams { name: AlgorithmName::AesGcm, length: 128 };
    let e = engine.generate_key_aes(vec![KeyUsage::Encrypt], params, true);
    assert_eq!(e.unwrap_err(), Error::NotSupported);
}

#[test]
fn raw_import_checks_usages_format_and_length() {
    let engine = SubtleCrypto::new();
    let import = |format, bytes: &[u8], usages: Vec<KeyUsage>| {
        engine.import_key(format, KeyData::Bytes(bytes.to_vec()), name("AES-CBC"), true, usages)
    };
    assert_eq!(import(KeyFormat::Raw, &[0; 10], vec![KeyUsage::Encrypt]).unwrap_err(), Error::Data);
    assert_eq!(import(KeyFormat::Raw, &[0; 64], vec![KeyUsage::Encrypt]).unwrap_err(), Error::Data);
    assert_eq!(
        import(KeyFormat::Spki, &[0; 16], vec![KeyUsage::Encrypt]).unwrap_err(),
        Error::NotSupported
    );
    assert_eq!(import(KeyFormat::Raw, &[0; 16], vec![]).unwrap_err(), Error::Syntax);
    assert_eq!(
        import(KeyFormat::Spki, &[0; 10], vec![KeyUsage::DeriveBits]).unwrap_err(),
        Error::Syntax
    );
    let key = import(KeyFormat::Raw, &[7; 24], vec![KeyUsage::UnwrapKey]).unwrap();
    assert_eq!(key.algorithm(), KeyAlgorithm { name: AlgorithmName::AesCbc, length: Some(192) });
    assert_eq!(key.handle().as_bytes(), &[7u8; 24][..]);
    let e = engine.import_key(
        KeyFormat::Raw,
        KeyData::Bytes(vec![0; 16]),
        name("SHA-256"),
        true,
        vec![KeyUsage::Encrypt],
    );
    assert_eq!(e.unwrap_err(), Error::NotSupported);
}

#[test]
fn pbkdf2_import_rules() {
    let engine = SubtleCrypto::new();
    let import = |format, extractable, usages: Vec<KeyUsage>| {
        engine.import_key(format, KeyData::Bytes(b"pw".to_vec()), name("pbkdf2"), extractable, usages)
    };
    assert_eq!(
        import(KeyFormat::Jwk, false, vec![KeyUsage::DeriveBits]).unwrap_err(),
        Error::NotSupported
    );
    assert_eq!(import(KeyFormat::Raw, false, vec![KeyUsage::Encrypt]).unwrap_err(), Error::Syntax);
    assert_eq!(import(KeyFormat::Raw, true, vec![KeyUsage::DeriveBits]).unwrap_err(), Error::Syntax);
    assert_eq!(import(KeyFormat::Raw, false, vec![]).unwrap_err(), Error::Syntax);
    let key = import(KeyFormat::Raw, false, vec![KeyUsage::DeriveKey, KeyUsage::DeriveBits]).unwrap();
    assert_eq!(key.algorithm(), KeyAlgorithm { name: AlgorithmName::Pbkdf2, length: None });
    assert!(!key.extractable());
    assert_eq!(key.handle().as_bytes(), b"pw");
}

#[test]
fn raw_export_then_import_keeps_bytes_name_and_length() {
    let engine = SubtleCrypto::new();
    for (alg, bits) in [("AES-CBC", 128u32), ("AES-CTR", 192), ("AES-CBC", 256)] {
        let key = engine
            .generate_key(keygen(alg, bits), true, vec![KeyUsage::Encrypt, KeyUsage::Decrypt])
            .unwrap();
        let raw = match engine.export_key(KeyFormat::Raw, &key).unwrap() {
            AesExportedKey::Raw(b) => b,
            AesExportedKey::Jwk(_) => panic!("expected raw bytes"),
        };
        assert_eq!(raw, key.handle().as_bytes().to_vec());
        let again = engine
            .import_key_aes(KeyFormat::Raw, &raw, false, vec![KeyUsage::WrapKey], key.algorithm().name)
            .unwrap();
        assert_eq!(again.handle().as_bytes(), key.handle().as_bytes());
        assert_eq!(again.algorithm(), key.algorithm());
        assert!(!again.extractable());
        assert_eq!(again.usages(), &vec![KeyUsage::WrapKey]);
    }
}

#[test]
fn jwk_export_fields() {
    let engine = SubtleCrypto::new();
    let bytes: Vec<u8> = (0..16).collect();
    let key = engine
        .import_key(KeyFormat::Raw, KeyData::Bytes(bytes), name("AES-CBC"), true, vec![KeyUsage::Encrypt])
        .unwrap();
    match engine.export_key(KeyFormat::Jwk, &key).unwrap() {
        AesExportedKey::Jwk(jwk) => {
            assert_eq!(jwk.kty.as_deref(), Some("oct"));
            assert_eq!(jwk.alg.as_deref(), Some("A128CBC"));
            assert_eq!(jwk.k.as_deref(), Some("AAECAwQFBgcICQoLDA0ODw"));
            assert_eq!(jwk.ext, Some(true));
            assert!(jwk.use_.is_none() && jwk.key_ops.is_none() && jwk.d.is_none());
        },
        AesExportedKey::Raw(_) => panic!("expected a JWK"),
    }
    let key = engine
        .import_key(KeyFormat::Raw, KeyData::Bytes(vec![0xff; 32]), name("aes-ctr"), true, vec![KeyUsage::Decrypt])
        .unwrap();
    match engine.export_key(KeyFormat::Jwk, &key).unwrap() {
        AesExportedKey::Jwk(jwk) => {
            assert_eq!(jwk.alg.as_deref(), Some("A256CTR"));
            assert_eq!(jwk.k.as_deref(), Some("__________________________________________8"));
        },
        AesExportedKey::Raw(_) => panic!("expected a JWK"),
    }
}

#[test]
fn jwk_params_text() {
    let (alg, k) = data_to_jwk_params(AlgorithmName::AesCtr, 192, &[0xff; 16]);
    assert_eq!(alg, "A192CTR");
    assert_eq!(k, "_____________________w");
    let (alg, k) = data_to_jwk_params(AlgorithmName::AesCbc, 128, &[0xfb, 0xef, 0, 0]);
    assert_eq!(alg, "A128CBC");
    assert_eq!(k, "--8AAA");
}

#[test]
fn export_refusals() {
    let engine = SubtleCrypto::new();
    let key = engine
        .import_key(KeyFormat::Raw, KeyData::Bytes(vec![1; 16]), name("AES-CBC"), false, vec![KeyUsage::Encrypt])
        .unwrap();
    assert_eq!(engine.export_key(KeyFormat::Raw, &key).unwrap_err(), Error::InvalidAccess);
    let key = engine
        .import_key(KeyFormat::Raw, KeyData::Bytes(vec![1; 16]), name("AES-CBC"), true, vec![KeyUsage::Encrypt])
        .unwrap();
    assert_eq!(engine.export_key(KeyFormat::Pkcs8, &key).unwrap_err(), Error::NotSupported);
    let secret = engine
        .import_key(KeyFormat::Raw, KeyData::Bytes(b"pw".to_vec()), name("PBKDF2"), false, vec![KeyUsage::DeriveBits])
        .unwrap();
    assert_eq!(engine.export_key(KeyFormat::Raw, &secret).unwrap_err(), Error::NotSupported);
    assert_eq!(engine.export_key_aes(KeyFormat::Raw, &secret).unwrap_err(), Error::Data);
    assert_eq!(engine.export_key_aes(KeyFormat::Jwk, &secret).unwrap_err(), Error::Data);
}

#[test]
fn jwk_import_decodes_unpadded_base64url() {
    let engine = SubtleCrypto::new();
    let mut jwk = empty_jwk();
    jwk.k = Some("--8AAAAAAAAAAAAAAAAAAA".to_string());
    let key = engine
        .import_key(KeyFormat::Jwk, KeyData::Jwk(jwk), name("AES-CTR"), true, vec![KeyUsage::Encrypt])
        .unwrap();
    let mut expected = vec![0u8; 16];
    expected[0] = 0xfb;
    expected[1] = 0xef;
    assert_eq!(key.handle().as_bytes(), &expected[..]);
}

#[test]
fn jwk_import_refusals() {
    let engine = SubtleCrypto::new();
    let e = engine.import_key(KeyFormat::Jwk, KeyData::Jwk(empty_jwk()), name("AES-CBC"), true, vec![KeyUsage::Encrypt]);
    assert_eq!(e.unwrap_err(), Error::Syntax);
    let mut jwk = empty_jwk();
    jwk.k = Some("!!!!".to_string());
    let e = engine.import_key(KeyFormat::Jwk, KeyData::Jwk(jwk), name("AES-CBC"), true, vec![KeyUsage::Encrypt]);
    assert_eq!(e.unwrap_err(), Error::Syntax);
    let mut jwk = empty_jwk();
    jwk.k = Some("AAAA".to_string());
    let e = engine.import_key(KeyFormat::Jwk, KeyData::Jwk(jwk), name("AES-CBC"), true, vec![KeyUsage::Encrypt]);
    assert_eq!(e.unwrap_err(), Error::Data);
}

#[test]
fn key_algorithm_constructors() {
    assert_eq!(
        KeyAlgorithm::from_name(AlgorithmName::Pbkdf2),
        KeyAlgorithm { name: AlgorithmName::Pbkdf2, length: None }
    );
    assert_eq!(
        KeyAlgorithm::from_name_and_size(AlgorithmName::AesCtr, 192),
        KeyAlgorithm { name: AlgorithmName::AesCtr, length: Some(192) }
    );
}

#[test]
fn algorithm_descriptor_shapes() {
    let d = Algorithm::named("x".to_string());
    assert!(d.iv.is_none() && d.hash.is_none() && d.length.is_none());
    let d = Algorithm::from_identifier(AlgorithmIdentifier::String("y".to_string()));
    assert_eq!(d.name, "y");
}
