//! The engine's entry points: each normalizes its descriptor, checks the key's usages,
//! and runs the primitive, giving one outcome.
use vstd::prelude::*;

use crate::algorithm::{
    normalize_algorithm, normalized, AlgorithmIdentifier, AlgorithmName, NormalizedAlgorithm,
    Operation,
};
use crate::cipher::{bytes_result, cbc_decrypt_result, cbc_encrypt_result, ctr_result};
use crate::digest::digest_result;
use crate::error::Error;
use crate::key::{
    has_usage, is_aes_name, AesExportedKey, CryptoKey, JsonWebKey, KeyData, KeyFormat, KeyModel,
    KeyUsage,
};
use crate::lifecycle::{
    aes_export_outcome, aes_generated, derive_bits_result, exported_as, import_result,
    key_result, ExportedModel,
};
use crate::primitives::{base64url_decode, base64url_decode_of, MAX_HASH_INPUT};

verus! {

/// The engine. Its randomness comes from the operating system's secure generator.
#[derive(Debug)]
pub struct SubtleCrypto {}

/// Encryption after normalization: the key must allow encryption and belong to the
/// algorithm; AES-CBC and AES-CTR are implemented.
pub open spec fn encrypt_outcome(
    n: Result<NormalizedAlgorithm, Error>,
    key: KeyModel,
    data: Seq<u8>,
) -> Result<Seq<u8>, Error> {
    match n {
        Err(e) => Err(e),
        Ok(NormalizedAlgorithm::AesCbcParams(p)) => if !key.usages.contains(KeyUsage::Encrypt)
            || p.name != key.algorithm.name {
            Err(Error::InvalidAccess)
        } else {
            cbc_encrypt_result(p.iv@, key.handle, data)
        },
        Ok(NormalizedAlgorithm::AesCtrParams(p)) => if !key.usages.contains(KeyUsage::Encrypt)
            || p.name != key.algorithm.name {
            Err(Error::InvalidAccess)
        } else {
            ctr_result(p.counter@, p.length, key.handle, data)
        },
        Ok(_) => Err(Error::NotSupported),
    }
}

/// Decryption after normalization: the key must allow decryption and belong to the
/// algorithm; AES-CBC and AES-CTR are implemented.
pub open spec fn decrypt_outcome(
    n: Result<NormalizedAlgorithm, Error>,
    key: KeyModel,
    data: Seq<u8>,
) -> Result<Seq<u8>, Error> {
    match n {
        Err(e) => Err(e),
        Ok(NormalizedAlgorithm::AesCbcParams(p)) => if !key.usages.contains(KeyUsage::Decrypt)
            || p.name != key.algorithm.name {
            Err(Error::InvalidAccess)
        } else {
            cbc_decrypt_result(p.iv@, key.handle, data)
        },
        Ok(NormalizedAlgorithm::AesCtrParams(p)) => if !key.usages.contains(KeyUsage::Decrypt)
            || p.name != key.algorithm.name {
            Err(Error::InvalidAccess)
        } else {
            ctr_result(p.counter@, p.length, key.handle, data)
        },
        Ok(_) => Err(Error::NotSupported),
    }
}

/// With AES-CBC, and a key that allows decryption under that algorithm, data that
/// encrypting a plaintext under the same parameters and key produces decrypts to it.
pub open spec fn cbc_decrypt_inverts(
    n: Result<NormalizedAlgorithm, Error>,
    key: KeyModel,
    data: Seq<u8>,
    r: Result<Seq<u8>, Error>,
) -> bool {
    match n {
        Ok(NormalizedAlgorithm::AesCbcParams(p)) => key.usages.contains(KeyUsage::Decrypt)
            && p.name == key.algorithm.name ==> forall|plain: Seq<u8>| #[trigger]
            cbc_encrypt_result(p.iv@, key.handle, plain) == Ok::<Seq<u8>, Error>(data) ==> r
                == Ok::<Seq<u8>, Error>(plain),
        _ => true,
    }
}

/// Digesting after normalization.
pub open spec fn digest_outcome(n: Result<NormalizedAlgorithm, Error>, data: Seq<u8>) -> Result<
    Seq<u8>,
    Error,
> {
    match n {
        Err(e) => Err(e),
        Ok(a) => digest_result(a, data),
    }
}

/// Key generation after normalization: AES key generation is implemented.
pub open spec fn generate_outcome(
    n: Result<NormalizedAlgorithm, Error>,
    usages: Seq<KeyUsage>,
    extractable: bool,
    r: Result<KeyModel, Error>,
) -> bool {
    match n {
        Err(e) => r == Err::<KeyModel, Error>(e),
        Ok(NormalizedAlgorithm::AesKeyGenParams(p)) => aes_generated(p, usages, extractable, r),
        Ok(_) => r == Err::<KeyModel, Error>(Error::NotSupported),
    }
}

/// Bit derivation after normalization: the base key must allow bit derivation.
pub open spec fn derive_bits_outcome(
    n: Result<NormalizedAlgorithm, Error>,
    key: KeyModel,
    length: Option<u32>,
) -> Result<Seq<u8>, Error> {
    match n {
        Err(e) => Err(e),
        Ok(a) => if !key.usages.contains(KeyUsage::DeriveBits) {
            Err(Error::InvalidAccess)
        } else {
            derive_bits_result(a, key.handle.bytes(), length)
        },
    }
}

/// Base64url text padded with `=` to a multiple of four characters.
pub open spec fn padded_base64(s: Seq<char>) -> Seq<char> {
    s + Seq::new(((4 - s.len() % 4) % 4) as nat, |i: int| '=')
}

/// The key bytes that import data stands for: the bytes themselves, or the decoded `k`
/// member of a JWK, whose absence or malformation is a syntax error.
pub open spec fn key_data_bytes(data: KeyData) -> Result<Seq<u8>, Error> {
    match data {
        KeyData::Bytes(b) => Ok(b@),
        KeyData::Jwk(j) => match j.k {
            None => Err(Error::Syntax),
            Some(k) => match base64url_decode_of(padded_base64(k@)) {
                Some(b) => Ok(b),
                None => Err(Error::Syntax),
            },
        },
    }
}

/// Key import after normalization.
pub open spec fn import_outcome(
    n: Result<NormalizedAlgorithm, Error>,
    format: KeyFormat,
    data: KeyData,
    extractable: bool,
    usages: Seq<KeyUsage>,
) -> Result<KeyModel, Error> {
    match n {
        Err(e) => Err(e),
        Ok(a) => match key_data_bytes(data) {
            Err(e) => Err(e),
            Ok(b) => import_result(a, format, b, extractable, usages),
        },
    }
}

/// Key export: digest and derivation keys never export; the key must be extractable;
/// AES-CBC and AES-CTR keys export.
pub open spec fn export_outcome(format: KeyFormat, key: KeyModel) -> Result<ExportedModel, Error> {
    let name = key.algorithm.name;
    if name == AlgorithmName::Sha1 || name == AlgorithmName::Sha256 || name
        == AlgorithmName::Sha384 || name == AlgorithmName::Sha512 || name == AlgorithmName::Hkdf
        || name == AlgorithmName::Pbkdf2 {
        Err(Error::NotSupported)
    } else if !key.extractable {
        Err(Error::InvalidAccess)
    } else if is_aes_name(name) {
        aes_export_outcome(format, key)
    } else {
        Err(Error::NotSupported)
    }
}

/// A key that is not extractable never exports, in any format.
pub proof fn lemma_non_extractable_never_exported(format: KeyFormat, key: KeyModel)
    requires
        !key.extractable,
    ensures
        export_outcome(format, key) is Err,
{
}

/// The bytes of the `k` member of a JWK, base64url-decoded after padding it with `=`.
pub fn jwk_key_bytes(jwk: &JsonWebKey) -> (r: Result<Vec<u8>, Error>)
    ensures
        bytes_result(r) == match jwk.k {
            None => Err(Error::Syntax),
            Some(k) => match base64url_decode_of(padded_base64(k@)) {
                Some(b) => Ok(b),
                None => Err(Error::Syntax),
            },
        },
{
    let k = match &jwk.k {
        Some(k) => k,
        None => {
            return Err(Error::Syntax);
        },
    };
    let n = k.as_str().unicode_len();
    let missing: usize = (4 - n % 4) % 4;
    let mut data = k.clone();
    let mut i: usize = 0;
    while i < missing
        invariant
            i <= missing,
            missing == (4 - k@.len() % 4) % 4,
            data@ == k@ + Seq::new(i as nat, |j: int| '='),
        decreases missing - i,
    {
        data.append("=");
        proof {
            reveal_strlit("=");
            assert("="@ =~= seq!['=']);
        }
        i = i + 1;
        assert(data@ =~= k@ + Seq::new(i as nat, |j: int| '='));
    }
    match base64url_decode(data.as_str()) {
        Some(b) => Ok(b),
        None => Err(Error::Syntax),
    }
}

impl SubtleCrypto {
    pub fn new() -> (r: SubtleCrypto) {
        SubtleCrypto {  }
    }

    /// Encrypts the data with the key under the algorithm that the descriptor normalizes to.
    pub fn encrypt(&self, algorithm: AlgorithmIdentifier, key: &CryptoKey, data: &[u8]) -> (r:
        Result<Vec<u8>, Error>)
        ensures
            bytes_result(r) == encrypt_outcome(normalized(algorithm, Operation::Encrypt), key@, data@),
    {
        match normalize_algorithm(algorithm, Operation::Encrypt) {
            Ok(a) => self.encrypt_normalized(a, key, data),
            Err(e) => Err(e),
        }
    }

    /// The deferred part of `encrypt`, once the descriptor has normalized: the usage gate,
    /// then the cipher.
    pub fn encrypt_normalized(&self, algorithm: NormalizedAlgorithm, key: &CryptoKey, data: &[u8]) -> (r:
        Result<Vec<u8>, Error>)
        ensures
            bytes_result(r) == encrypt_outcome(Ok(algorithm), key@, data@),
    {
        let key_alg = key.algorithm();
        let valid_usage = has_usage(key.usages(), KeyUsage::Encrypt);
        match algorithm {
            NormalizedAlgorithm::AesCbcParams(params) => {
                if !valid_usage || params.name != key_alg.name {
                    Err(Error::InvalidAccess)
                } else {
                    self.encrypt_aes_cbc(params, key, data)
                }
            },
            NormalizedAlgorithm::AesCtrParams(params) => {
                if !valid_usage || params.name != key_alg.name {
                    Err(Error::InvalidAccess)
                } else {
                    self.encrypt_decrypt_aes_ctr(params, key, data)
                }
            },
            _ => Err(Error::NotSupported),
        }
    }

    /// Decrypts the data with the key under the algorithm that the descriptor normalizes to.
    /// With AES-CBC, data that encrypting some plaintext under the same parameters and key
    /// produced decrypts to that plaintext.
    pub fn decrypt(&self, algorithm: AlgorithmIdentifier, key: &CryptoKey, data: &[u8]) -> (r:
        Result<Vec<u8>, Error>)
        ensures
            bytes_result(r) == decrypt_outcome(normalized(algorithm, Operation::Decrypt), key@, data@),
            cbc_decrypt_inverts(normalized(algorithm, Operation::Decrypt), key@, data@, bytes_result(r)),
    {
        match normalize_algorithm(algorithm, Operation::Decrypt) {
            Ok(a) => self.decrypt_normalized(a, key, data),
            Err(e) => Err(e),
        }
    }

    /// The deferred part of `decrypt`, once the descriptor has normalized: the usage gate,
    /// then the cipher.
    pub fn decrypt_normalized(&self, algorithm: NormalizedAlgorithm, key: &CryptoKey, data: &[u8]) -> (r:
        Result<Vec<u8>, Error>)
        ensures
            bytes_result(r) == decrypt_outcome(Ok(algorithm), key@, data@),
            cbc_decrypt_inverts(Ok(algorithm), key@, data@, bytes_result(r)),
    {
        let key_alg = key.algorithm();
        let valid_usage = has_usage(key.usages(), KeyUsage::Decrypt);
        match algorithm {
            NormalizedAlgorithm::AesCbcParams(params) => {
                if !valid_usage || params.name != key_alg.name {
                    Err(Error::InvalidAccess)
                } else {
                    self.decrypt_aes_cbc(params, key, data)
                }
            },
            NormalizedAlgorithm::AesCtrParams(params) => {
                if !valid_usage || params.name != key_alg.name {
                    Err(Error::InvalidAccess)
                } else {
                    self.encrypt_decrypt_aes_ctr(params, key, data)
                }
            },
            _ => Err(Error::NotSupported),
        }
    }

    /// The digest of the data under the algorithm that the descriptor normalizes to.
    pub fn digest(&self, algorithm: AlgorithmIdentifier, data: &[u8]) -> (r: Result<Vec<u8>, Error>)
        requires
            data@.len() < MAX_HASH_INPUT,
        ensures
            bytes_result(r) == digest_outcome(normalized(algorithm, Operation::Digest), data@),
    {
        match normalize_algorithm(algorithm, Operation::Digest) {
            Ok(normalized_algorithm) => normalized_algorithm.digest(data),
            Err(e) => Err(e),
        }
    }

    /// Generates a key under the algorithm that the descriptor normalizes to.
    pub fn generate_key(
        &self,
        algorithm: AlgorithmIdentifier,
        extractable: bool,
        key_usages: Vec<KeyUsage>,
    ) -> (r: Result<CryptoKey, Error>)
        ensures
            generate_outcome(
                normalized(algorithm, Operation::GenerateKey),
                key_usages@,
                extractable,
                key_result(r),
            ),
    {
        match normalize_algorithm(algorithm, Operation::GenerateKey) {
            Ok(a) => self.generate_key_normalized(a, extractable, key_usages),
            Err(e) => Err(e),
        }
    }

    /// The deferred part of `generate_key`, once the descriptor has normalized.
    pub fn generate_key_normalized(
        &self,
        algorithm: NormalizedAlgorithm,
        extractable: bool,
        key_usages: Vec<KeyUsage>,
    ) -> (r: Result<CryptoKey, Error>)
        ensures
            generate_outcome(Ok(algorithm), key_usages@, extractable, key_result(r)),
    {
        match algorithm {
            NormalizedAlgorithm::AesKeyGenParams(params) => {
                self.generate_key_aes(key_usages, params, extractable)
            },
            _ => Err(Error::NotSupported),
        }
    }

    /// Derives `length` bits from the base key under the algorithm that the descriptor
    /// normalizes to.
    pub fn derive_bits(
        &self,
        algorithm: AlgorithmIdentifier,
        base_key: &CryptoKey,
        length: Option<u32>,
    ) -> (r: Result<Vec<u8>, Error>)
        ensures
            bytes_result(r) == derive_bits_outcome(
                normalized(algorithm, Operation::DeriveBits),
                base_key@,
                length,
            ),
    {
        match normalize_algorithm(algorithm, Operation::DeriveBits) {
            Ok(a) => self.derive_bits_normalized(a, base_key, length),
            Err(e) => Err(e),
        }
    }

    /// The deferred part of `derive_bits`, once the descriptor has normalized: the usage
    /// gate, then the derivation.
    pub fn derive_bits_normalized(
        &self,
        algorithm: NormalizedAlgorithm,
        base_key: &CryptoKey,
        length: Option<u32>,
    ) -> (r: Result<Vec<u8>, Error>)
        ensures
            bytes_result(r) == derive_bits_outcome(Ok(algorithm), base_key@, length),
    {
        if !has_usage(base_key.usages(), KeyUsage::DeriveBits) {
            return Err(Error::InvalidAccess);
        }
        algorithm.derive_bits(base_key, length)
    }

    /// Imports a key from bytes or a JWK under the algorithm that the descriptor
    /// normalizes to.
    pub fn import_key(
        &self,
        format: KeyFormat,
        key_data: KeyData,
        algorithm: AlgorithmIdentifier,
        extractable: bool,
        key_usages: Vec<KeyUsage>,
    ) -> (r: Result<CryptoKey, Error>)
        ensures
            key_result(r) == import_outcome(
                normalized(algorithm, Operation::ImportKey),
                format,
                key_data,
                extractable,
                key_usages@,
            ),
    {
        let normalized_algorithm = match normalize_algorithm(algorithm, Operation::ImportKey) {
            Ok(a) => a,
            Err(e) => {
                return Err(e);
            },
        };
        let data = match key_data {
            KeyData::Bytes(b) => b,
            KeyData::Jwk(jwk) => match jwk_key_bytes(&jwk) {
                Ok(b) => b,
                Err(e) => {
                    return Err(e);
                },
            },
        };
        normalized_algorithm.import_key(self, format, data.as_slice(), extractable, key_usages)
    }

    /// Exports the key as raw bytes or as a JWK.
    pub fn export_key(&self, format: KeyFormat, key: &CryptoKey) -> (r: Result<
        AesExportedKey,
        Error,
    >)
        ensures
            exported_as(r, export_outcome(format, key@)),
    {
        let name = key.algorithm().name;
        match name {
            AlgorithmName::Sha1
            | AlgorithmName::Sha256
            | AlgorithmName::Sha384
            | AlgorithmName::Sha512
            | AlgorithmName::Hkdf
            | AlgorithmName::Pbkdf2 => {
                return Err(Error::NotSupported);
            },
            _ => {},
        }
        if !key.extractable() {
            return Err(Error::InvalidAccess);
        }
        match name {
            AlgorithmName::AesCbc | AlgorithmName::AesCtr => self.export_key_aes(format, key),
            _ => Err(Error::NotSupported),
        }
    }
}

} // verus!
