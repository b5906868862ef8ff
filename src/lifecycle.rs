//! Key generation, import and export, and PBKDF2 bit derivation.
use vstd::prelude::*;
use vstd::slice::slice_to_vec;

use crate::algorithm::{
    AlgorithmName, NormalizedAlgorithm, ShaAlgorithm, SubtleAesKeyGenParams, SubtlePbkdf2Params,
};
use crate::cipher::bytes_result;
use crate::error::Error;
use crate::key::{
    aes_usages_ok, aes_usages_valid, is_aes_name, pbkdf2_usages_ok, pbkdf2_usages_valid,
    AesExportedKey, CryptoKey, Handle, JsonWebKey, KeyAlgorithm, KeyFormat, KeyMaterial,
    KeyModel, KeyType, KeyUsage,
};
use crate::primitives::{
    base64url_encode, base64url_encode_of, fill_random, pbkdf2_derive, pbkdf2_of, MAX_HASH_INPUT,
};
use crate::subtle::SubtleCrypto;

verus! {

/// What a key result holds.
pub open spec fn key_result(r: Result<CryptoKey, Error>) -> Result<KeyModel, Error> {
    match r {
        Ok(k) => Ok(k@),
        Err(e) => Err(e),
    }
}

/// Importing AES key bytes: the usages are checked first, then the format, the algorithm
/// name and the length of the bytes.
pub open spec fn aes_import_outcome(
    format: KeyFormat,
    data: Seq<u8>,
    extractable: bool,
    usages: Seq<KeyUsage>,
    name: AlgorithmName,
) -> Result<KeyModel, Error> {
    if !aes_usages_ok(usages) {
        Err(Error::Syntax)
    } else if !(format == KeyFormat::Raw || format == KeyFormat::Jwk) {
        Err(Error::NotSupported)
    } else if !is_aes_name(name) {
        Err(Error::NotSupported)
    } else {
        match KeyMaterial::aes_of(data) {
            Some(handle) => Ok(
                KeyModel {
                    key_type: KeyType::Secret,
                    extractable,
                    algorithm: KeyAlgorithm { name, length: Some((data.len() * 8) as u16) },
                    usages,
                    handle,
                },
            ),
            None => Err(Error::Data),
        }
    }
}

/// Importing a PBKDF2 secret: raw format only, derivation usages only, never extractable.
pub open spec fn pbkdf2_import_outcome(
    format: KeyFormat,
    data: Seq<u8>,
    extractable: bool,
    usages: Seq<KeyUsage>,
) -> Result<KeyModel, Error> {
    if format != KeyFormat::Raw {
        Err(Error::NotSupported)
    } else if !pbkdf2_usages_ok(usages) {
        Err(Error::Syntax)
    } else if extractable {
        Err(Error::Syntax)
    } else {
        Ok(
            KeyModel {
                key_type: KeyType::Secret,
                extractable,
                algorithm: KeyAlgorithm { name: AlgorithmName::Pbkdf2, length: None },
                usages,
                handle: KeyMaterial::Pbkdf2(data),
            },
        )
    }
}

/// Why AES key generation is refused, if it is: a length other than 128, 192 or 256 bits,
/// then a usage list unfit for AES, then a name other than AES-CBC or AES-CTR.
pub open spec fn aes_generate_error(params: SubtleAesKeyGenParams, usages: Seq<KeyUsage>) -> Option<
    Error,
> {
    if !(params.length == 128 || params.length == 192 || params.length == 256) {
        Some(Error::Operation)
    } else if !aes_usages_ok(usages) {
        Some(Error::Syntax)
    } else if !is_aes_name(params.name) {
        Some(Error::NotSupported)
    } else {
        None
    }
}

/// What AES key generation may give: the refusal of `aes_generate_error`; otherwise a
/// secret key with the requested name, length, usages and extractability, or an operation
/// error when the random source fails.
pub open spec fn aes_generated(
    params: SubtleAesKeyGenParams,
    usages: Seq<KeyUsage>,
    extractable: bool,
    r: Result<KeyModel, Error>,
) -> bool {
    match aes_generate_error(params, usages) {
        Some(e) => r == Err::<KeyModel, Error>(e),
        None => match r {
            Ok(k) => {
                &&& k.key_type == KeyType::Secret
                &&& k.extractable == extractable
                &&& k.algorithm == KeyAlgorithm { name: params.name, length: Some(params.length) }
                &&& k.usages == usages
                &&& k.handle.aes_bytes() matches Some(b) && b.len() * 8 == params.length
            },
            Err(e) => e == Error::Operation,
        },
    }
}

/// The bit length of AES key material.
pub open spec fn aes_bits(m: KeyMaterial) -> u16 {
    match m {
        KeyMaterial::Aes128(_) => 128,
        KeyMaterial::Aes192(_) => 192,
        KeyMaterial::Aes256(_) => 256,
        KeyMaterial::Pbkdf2(_) => 0,
    }
}

/// The decimal text of an AES key size.
pub open spec fn bits_text(bits: u16) -> Seq<char> {
    if bits == 128 {
        "128"@
    } else if bits == 192 {
        "192"@
    } else {
        "256"@
    }
}

/// The JWK `alg` of an AES key: `A`, the bit length, then `CBC` or `CTR`.
pub open spec fn jwk_alg_of(name: AlgorithmName, bits: u16) -> Seq<char> {
    "A"@ + bits_text(bits) + if name == AlgorithmName::AesCbc {
        "CBC"@
    } else {
        "CTR"@
    }
}

/// An exported AES key, as values.
pub enum ExportedModel {
    Raw(Seq<u8>),
    Jwk { alg: Seq<char>, k: Seq<char>, ext: bool },
}

/// Exporting an AES key: raw bytes, or a symmetric JWK with the unpadded base64url bytes.
pub open spec fn aes_export_outcome(format: KeyFormat, key: KeyModel) -> Result<ExportedModel, Error> {
    match format {
        KeyFormat::Raw => match key.handle.aes_bytes() {
            Some(b) => Ok(ExportedModel::Raw(b)),
            None => Err(Error::Data),
        },
        KeyFormat::Jwk => match key.handle.aes_bytes() {
            Some(b) => Ok(
                ExportedModel::Jwk {
                    alg: jwk_alg_of(key.algorithm.name, aes_bits(key.handle)),
                    k: base64url_encode_of(b),
                    ext: key.extractable,
                },
            ),
            None => Err(Error::Data),
        },
        _ => Err(Error::NotSupported),
    }
}

/// A JWK of type `oct` with the given `alg`, `k` and `ext`, and no other member.
pub open spec fn is_oct_jwk(j: JsonWebKey, alg: Seq<char>, k: Seq<char>, ext: bool) -> bool {
    &&& j.kty matches Some(s) && s@ == "oct"@
    &&& j.alg matches Some(s) && s@ == alg
    &&& j.k matches Some(s) && s@ == k
    &&& j.ext == Some(ext)
    &&& j.use_ is None
    &&& j.key_ops is None
    &&& j.crv is None
    &&& j.x is None
    &&& j.y is None
    &&& j.d is None
    &&& j.n is None
    &&& j.e is None
    &&& j.p is None
    &&& j.q is None
    &&& j.dp is None
    &&& j.dq is None
    &&& j.qi is None
}

/// An export result holds what the model says.
pub open spec fn exported_as(r: Result<AesExportedKey, Error>, m: Result<ExportedModel, Error>) -> bool {
    match (r, m) {
        (Ok(AesExportedKey::Raw(b)), Ok(ExportedModel::Raw(mb))) => b@ == mb,
        (Ok(AesExportedKey::Jwk(j)), Ok(ExportedModel::Jwk { alg, k, ext })) => is_oct_jwk(
            *j,
            alg,
            k,
            ext,
        ),
        (Err(e), Err(me)) => e == me,
        _ => false,
    }
}

/// The JWK `alg` text and the unpadded base64url text of an AES key.
pub fn data_to_jwk_params(alg: AlgorithmName, size: u16, key: &[u8]) -> (r: (String, String))
    requires
        is_aes_name(alg),
        size == 128 || size == 192 || size == 256,
        key@.len() <= 32,
    ensures
        r.0@ == jwk_alg_of(alg, size),
        r.1@ == base64url_encode_of(key@),
{
    let bits = if size == 128 {
        "128"
    } else if size == 192 {
        "192"
    } else {
        "256"
    };
    let mode = if alg == AlgorithmName::AesCbc {
        "CBC"
    } else {
        "CTR"
    };
    let jwk_alg = String::from_str("A").concat(bits).concat(mode);
    let data = base64url_encode(key);
    (jwk_alg, data)
}

impl SubtleCrypto {
    /// Makes an AES key of the bytes, under the name, with the usages.
    pub fn import_key_aes(
        &self,
        format: KeyFormat,
        data: &[u8],
        extractable: bool,
        usages: Vec<KeyUsage>,
        alg_name: AlgorithmName,
    ) -> (r: Result<CryptoKey, Error>)
        ensures
            key_result(r) == aes_import_outcome(format, data@, extractable, usages@, alg_name),
    {
        if !aes_usages_valid(&usages) {
            return Err(Error::Syntax);
        }
        if !(format == KeyFormat::Raw || format == KeyFormat::Jwk) {
            return Err(Error::NotSupported);
        }
        if !(alg_name == AlgorithmName::AesCbc || alg_name == AlgorithmName::AesCtr) {
            return Err(Error::NotSupported);
        }
        let bytes = slice_to_vec(data);
        let (handle, size) = if data.len() == 16 {
            (Handle::Aes128(bytes), 128u16)
        } else if data.len() == 24 {
            (Handle::Aes192(bytes), 192u16)
        } else if data.len() == 32 {
            (Handle::Aes256(bytes), 256u16)
        } else {
            return Err(Error::Data);
        };
        let algorithm = KeyAlgorithm::from_name_and_size(alg_name, size);
        Ok(CryptoKey::new(KeyType::Secret, extractable, algorithm, usages, handle))
    }

    /// Makes a PBKDF2 key of the secret bytes.
    pub fn import_key_pbkdf2(
        &self,
        format: KeyFormat,
        data: &[u8],
        extractable: bool,
        usages: Vec<KeyUsage>,
    ) -> (r: Result<CryptoKey, Error>)
        ensures
            key_result(r) == pbkdf2_import_outcome(format, data@, extractable, usages@),
    {
        if format != KeyFormat::Raw {
            return Err(Error::NotSupported);
        }
        if !pbkdf2_usages_valid(&usages) {
            return Err(Error::Syntax);
        }
        if extractable {
            return Err(Error::Syntax);
        }
        let algorithm = KeyAlgorithm::from_name(AlgorithmName::Pbkdf2);
        let handle = Handle::Pbkdf2(slice_to_vec(data));
        Ok(CryptoKey::new(KeyType::Secret, extractable, algorithm, usages, handle))
    }

    /// Generates an AES key of `params.length` bits from the secure random source. Besides
    /// the refusals of `aes_generate_error`, it fails only when the random source fails.
    pub fn generate_key_aes(
        &self,
        usages: Vec<KeyUsage>,
        params: SubtleAesKeyGenParams,
        extractable: bool,
    ) -> (r: Result<CryptoKey, Error>)
        ensures
            aes_generated(params, usages@, extractable, key_result(r)),
    {
        let len: usize = if params.length == 128 {
            16
        } else if params.length == 192 {
            24
        } else if params.length == 256 {
            32
        } else {
            return Err(Error::Operation);
        };
        if !aes_usages_valid(&usages) {
            return Err(Error::Syntax);
        }
        if !(params.name == AlgorithmName::AesCbc || params.name == AlgorithmName::AesCtr) {
            return Err(Error::NotSupported);
        }
        let mut bytes: Vec<u8> = vec![0u8; len];
        if !fill_random(&mut bytes) {
            return Err(Error::Operation);
        }
        self.import_key_aes(KeyFormat::Raw, bytes.as_slice(), extractable, usages, params.name)
    }

    /// Exports an AES key as raw bytes or as a JWK.
    pub fn export_key_aes(&self, format: KeyFormat, key: &CryptoKey) -> (r: Result<
        AesExportedKey,
        Error,
    >)
        ensures
            exported_as(r, aes_export_outcome(format, key@)),
    {
        proof {
            use_type_invariant(key);
        }
        match format {
            KeyFormat::Raw => match key.handle() {
                Handle::Aes128(k) => Ok(AesExportedKey::Raw(slice_to_vec(k.as_slice()))),
                Handle::Aes192(k) => Ok(AesExportedKey::Raw(slice_to_vec(k.as_slice()))),
                Handle::Aes256(k) => Ok(AesExportedKey::Raw(slice_to_vec(k.as_slice()))),
                Handle::Pbkdf2(_) => Err(Error::Data),
            },
            KeyFormat::Jwk => {
                let name = key.algorithm().name;
                let (alg, k) = match key.handle() {
                    Handle::Aes128(k) => data_to_jwk_params(name, 128, k.as_slice()),
                    Handle::Aes192(k) => data_to_jwk_params(name, 192, k.as_slice()),
                    Handle::Aes256(k) => data_to_jwk_params(name, 256, k.as_slice()),
                    Handle::Pbkdf2(_) => {
                        return Err(Error::Data);
                    },
                };
                let jwk = JsonWebKey {
                    kty: Some(String::from_str("oct")),
                    use_: None,
                    key_ops: None,
                    alg: Some(alg),
                    ext: Some(key.extractable()),
                    crv: None,
                    x: None,
                    y: None,
                    d: None,
                    n: None,
                    e: None,
                    p: None,
                    q: None,
                    dp: None,
                    dq: None,
                    qi: None,
                    k: Some(k),
                };
                Ok(AesExportedKey::Jwk(Box::new(jwk)))
            },
            _ => Err(Error::NotSupported),
        }
    }
}

/// Exporting an AES key as raw bytes and importing those bytes again under the key's
/// algorithm name gives a key with the same bytes, algorithm name and bit length; the
/// usages and extractability are the importer's.
pub proof fn lemma_raw_export_import(key: KeyModel, extractable: bool, usages: Seq<KeyUsage>)
    requires
        key.wf(),
        key.handle.aes_bytes() is Some,
        aes_usages_ok(usages),
    ensures
        aes_export_outcome(KeyFormat::Raw, key) matches Ok(ExportedModel::Raw(b))
            && aes_import_outcome(KeyFormat::Raw, b, extractable, usages, key.algorithm.name) matches Ok(k)
            && k.handle == key.handle && k.algorithm == key.algorithm,
{
}

/// The SHA function a normalized digest algorithm names.
pub open spec fn sha_of(n: NormalizedAlgorithm) -> Option<ShaAlgorithm> {
    match n {
        NormalizedAlgorithm::Sha1 => Some(ShaAlgorithm::Sha1),
        NormalizedAlgorithm::Sha256 => Some(ShaAlgorithm::Sha256),
        NormalizedAlgorithm::Sha384 => Some(ShaAlgorithm::Sha384),
        NormalizedAlgorithm::Sha512 => Some(ShaAlgorithm::Sha512),
        _ => None,
    }
}

/// PBKDF2 bit derivation: the length must be given, non-zero and a multiple of 8; the
/// iteration count non-zero; the hash a SHA function; salt and password within the hash's
/// input limits. The result has `length / 8` bytes.
pub open spec fn pbkdf2_result(p: SubtlePbkdf2Params, secret: Seq<u8>, length: Option<u32>) -> Result<
    Seq<u8>,
    Error,
> {
    match length {
        None => Err(Error::Operation),
        Some(l) => if l == 0 || l % 8 != 0 {
            Err(Error::Operation)
        } else if p.iterations == 0 {
            Err(Error::Operation)
        } else {
            match sha_of(*p.hash) {
                None => Err(Error::NotSupported),
                Some(h) => if p.salt@.len() >= MAX_HASH_INPUT || secret.len() >= MAX_HASH_INPUT {
                    Err(Error::Operation)
                } else {
                    Ok(pbkdf2_of(h, p.iterations, p.salt@, secret, (l / 8) as nat))
                },
            }
        },
    }
}

impl SubtlePbkdf2Params {
    /// Derives `length` bits from the key's secret with PBKDF2.
    pub fn derive_bits(&self, key: &CryptoKey, length: Option<u32>) -> (r: Result<Vec<u8>, Error>)
        ensures
            bytes_result(r) == pbkdf2_result(*self, key@.handle.bytes(), length),
            self.iterations == 0 ==> (r matches Err(e) && e == Error::Operation),
            r matches Ok(b) ==> length matches Some(l) && b@.len() == l / 8,
    {
        let length = match length {
            Some(l) => l,
            None => {
                return Err(Error::Operation);
            },
        };
        if length == 0 || length % 8 != 0 {
            return Err(Error::Operation);
        }
        if self.iterations == 0 {
            return Err(Error::Operation);
        }
        let hash = match &*self.hash {
            NormalizedAlgorithm::Sha1 => ShaAlgorithm::Sha1,
            NormalizedAlgorithm::Sha256 => ShaAlgorithm::Sha256,
            NormalizedAlgorithm::Sha384 => ShaAlgorithm::Sha384,
            NormalizedAlgorithm::Sha512 => ShaAlgorithm::Sha512,
            _ => {
                return Err(Error::NotSupported);
            },
        };
        let secret = key.handle().as_bytes();
        if self.salt.len() as u64 >= MAX_HASH_INPUT || secret.len() as u64 >= MAX_HASH_INPUT {
            return Err(Error::Operation);
        }
        let mut result: Vec<u8> = vec![0u8; (length / 8) as usize];
        pbkdf2_derive(hash, self.iterations, self.salt.as_slice(), secret, &mut result);
        Ok(result)
    }
}

/// Bit derivation with a normalized algorithm: only PBKDF2 is implemented.
pub open spec fn derive_bits_result(n: NormalizedAlgorithm, secret: Seq<u8>, length: Option<u32>) -> Result<
    Seq<u8>,
    Error,
> {
    match n {
        NormalizedAlgorithm::Pbkdf2Params(p) => pbkdf2_result(p, secret, length),
        _ => Err(Error::NotSupported),
    }
}

/// Key import with a normalized algorithm: AES-CBC, AES-CTR and PBKDF2 are implemented.
pub open spec fn import_result(
    n: NormalizedAlgorithm,
    format: KeyFormat,
    data: Seq<u8>,
    extractable: bool,
    usages: Seq<KeyUsage>,
) -> Result<KeyModel, Error> {
    match n {
        NormalizedAlgorithm::Algorithm(a) => match a.name {
            AlgorithmName::AesCbc => aes_import_outcome(
                format,
                data,
                extractable,
                usages,
                AlgorithmName::AesCbc,
            ),
            AlgorithmName::AesCtr => aes_import_outcome(
                format,
                data,
                extractable,
                usages,
                AlgorithmName::AesCtr,
            ),
            AlgorithmName::Pbkdf2 => pbkdf2_import_outcome(format, data, extractable, usages),
            _ => Err(Error::NotSupported),
        },
        _ => Err(Error::NotSupported),
    }
}

impl NormalizedAlgorithm {
    pub fn derive_bits(&self, key: &CryptoKey, length: Option<u32>) -> (r: Result<Vec<u8>, Error>)
        ensures
            bytes_result(r) == derive_bits_result(*self, key@.handle.bytes(), length),
    {
        match self {
            NormalizedAlgorithm::Pbkdf2Params(p) => p.derive_bits(key, length),
            _ => Err(Error::NotSupported),
        }
    }

    pub fn import_key(
        &self,
        subtle: &SubtleCrypto,
        format: KeyFormat,
        secret: &[u8],
        extractable: bool,
        key_usages: Vec<KeyUsage>,
    ) -> (r: Result<CryptoKey, Error>)
        ensures
            key_result(r) == import_result(*self, format, secret@, extractable, key_usages@),
    {
        let alg = match self {
            NormalizedAlgorithm::Algorithm(a) => a,
            _ => {
                return Err(Error::NotSupported);
            },
        };
        match alg.name {
            AlgorithmName::AesCbc => subtle.import_key_aes(
                format,
                secret,
                extractable,
                key_usages,
                AlgorithmName::AesCbc,
            ),
            AlgorithmName::AesCtr => subtle.import_key_aes(
                format,
                secret,
                extractable,
                key_usages,
                AlgorithmName::AesCtr,
            ),
            AlgorithmName::Pbkdf2 => subtle.import_key_pbkdf2(
                format,
                secret,
                extractable,
                key_usages,
            ),
            _ => Err(Error::NotSupported),
        }
    }
}

/// PBKDF2 derivation is a function of its inputs: equal parameters, secret and length give
/// equal results, and a zero iteration count fails with an operation error whatever the
/// rest.
pub proof fn lemma_pbkdf2_deterministic(
    p: SubtlePbkdf2Params,
    q: SubtlePbkdf2Params,
    secret: Seq<u8>,
    length: Option<u32>,
)
    requires
        p.salt@ == q.salt@,
        p.iterations == q.iterations,
        *p.hash == *q.hash,
    ensures
        pbkdf2_result(p, secret, length) == pbkdf2_result(q, secret, length),
        p.iterations == 0 ==> pbkdf2_result(p, secret, length) == Err::<Seq<u8>, Error>(
            Error::Operation,
        ),
{
}

} // verus!
