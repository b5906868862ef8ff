//! Algorithm names, raw descriptors, and their normalization against the
//! table of supported (algorithm, operation) pairs.
use vstd::prelude::*;

use crate::error::Error;
use crate::primitives::{to_uppercase, uppercase_of};

verus! {

/// The SHA functions that digests and PBKDF2 use.
#[derive(Clone, Copy, Debug, PartialEq, Eq, Structural)]
pub enum ShaAlgorithm {
    Sha1,
    Sha256,
    Sha384,
    Sha512,
}

impl ShaAlgorithm {
    /// Output length in bytes.
    pub open spec fn output_len(self) -> nat {
        match self {
            ShaAlgorithm::Sha1 => 20,
            ShaAlgorithm::Sha256 => 32,
            ShaAlgorithm::Sha384 => 48,
            ShaAlgorithm::Sha512 => 64,
        }
    }
}

/// The registered algorithm names the engine knows.
#[derive(Clone, Copy, Debug, PartialEq, Eq, Structural)]
pub enum AlgorithmName {
    AesCbc,
    AesCtr,
    AesGcm,
    AesKw,
    Sha1,
    Sha256,
    Sha384,
    Sha512,
    Hmac,
    Hkdf,
    Pbkdf2,
    RsassaPkcs1V15,
    RsaOaep,
    RsaPss,
    Ecdh,
    Ecdsa,
}

impl AlgorithmName {
    /// The registered spelling of the name.
    pub open spec fn spec_name(self) -> Seq<char> {
        match self {
            AlgorithmName::AesCbc => "AES-CBC"@,
            AlgorithmName::AesCtr => "AES-CTR"@,
            AlgorithmName::AesGcm => "AES-GCM"@,
            AlgorithmName::AesKw => "AES-KW"@,
            AlgorithmName::Sha1 => "SHA-1"@,
            AlgorithmName::Sha256 => "SHA-256"@,
            AlgorithmName::Sha384 => "SHA-384"@,
            AlgorithmName::Sha512 => "SHA-512"@,
            AlgorithmName::Hmac => "HMAC"@,
            AlgorithmName::Hkdf => "HKDF"@,
            AlgorithmName::Pbkdf2 => "PBKDF2"@,
            AlgorithmName::RsassaPkcs1V15 => "RSASSA-PKCS1-v1_5"@,
            AlgorithmName::RsaOaep => "RSA-OAEP"@,
            AlgorithmName::RsaPss => "RSA-PSS"@,
            AlgorithmName::Ecdh => "ECDH"@,
            AlgorithmName::Ecdsa => "ECDSA"@,
        }
    }

    pub fn as_str(&self) -> (r: &'static str)
        ensures
            r@ == self.spec_name(),
    {
        match self {
            AlgorithmName::AesCbc => "AES-CBC",
            AlgorithmName::AesCtr => "AES-CTR",
            AlgorithmName::AesGcm => "AES-GCM",
            AlgorithmName::AesKw => "AES-KW",
            AlgorithmName::Sha1 => "SHA-1",
            AlgorithmName::Sha256 => "SHA-256",
            AlgorithmName::Sha384 => "SHA-384",
            AlgorithmName::Sha512 => "SHA-512",
            AlgorithmName::Hmac => "HMAC",
            AlgorithmName::Hkdf => "HKDF",
            AlgorithmName::Pbkdf2 => "PBKDF2",
            AlgorithmName::RsassaPkcs1V15 => "RSASSA-PKCS1-v1_5",
            AlgorithmName::RsaOaep => "RSA-OAEP",
            AlgorithmName::RsaPss => "RSA-PSS",
            AlgorithmName::Ecdh => "ECDH",
            AlgorithmName::Ecdsa => "ECDSA",
        }
    }
}

/// The operations a descriptor can be normalized for.
#[derive(Clone, Copy, Debug, PartialEq, Eq, Structural)]
pub enum Operation {
    Encrypt,
    Decrypt,
    Sign,
    Verify,
    Digest,
    GenerateKey,
    DeriveKey,
    DeriveBits,
    ImportKey,
    ExportKey,
    WrapKey,
    UnwrapKey,
    GetKeyLength,
}

/// A structured algorithm descriptor: a name and the optional fields that
/// some operations read.
#[derive(Debug)]
pub struct Algorithm {
    pub name: String,
    pub iv: Option<Vec<u8>>,
    pub counter: Option<Vec<u8>>,
    pub length: Option<u32>,
    pub salt: Option<Vec<u8>>,
    pub iterations: Option<u32>,
    pub hash: Option<Box<AlgorithmIdentifier>>,
}

/// A raw algorithm descriptor: a bare name, or a structured object.
#[derive(Debug)]
pub enum AlgorithmIdentifier {
    String(String),
    Object(Algorithm),
}

/// A descriptor with only a name.
pub open spec fn named_dictionary(name: String) -> Algorithm {
    Algorithm {
        name,
        iv: None,
        counter: None,
        length: None,
        salt: None,
        iterations: None,
        hash: None,
    }
}

/// The structured form of a descriptor; a bare name is an object holding just that name.
pub open spec fn dictionary_of(a: AlgorithmIdentifier) -> Algorithm {
    match a {
        AlgorithmIdentifier::String(name) => named_dictionary(name),
        AlgorithmIdentifier::Object(d) => d,
    }
}

impl Algorithm {
    pub fn named(name: String) -> (r: Algorithm)
        ensures
            r == named_dictionary(name),
    {
        Algorithm {
            name,
            iv: None,
            counter: None,
            length: None,
            salt: None,
            iterations: None,
            hash: None,
        }
    }

    pub fn from_identifier(a: AlgorithmIdentifier) -> (r: Algorithm)
        ensures
            r == dictionary_of(a),
    {
        match a {
            AlgorithmIdentifier::String(name) => Algorithm::named(name),
            AlgorithmIdentifier::Object(d) => d,
        }
    }
}

/// A normalized algorithm that needs nothing but its name.
#[derive(Clone, Copy, Debug, PartialEq, Eq, Structural)]
pub struct SubtleAlgorithm {
    pub name: AlgorithmName,
}

/// Parameters of AES-CBC encryption and decryption.
#[derive(Debug)]
pub struct SubtleAesCbcParams {
    pub name: AlgorithmName,
    pub iv: Vec<u8>,
}

/// Parameters of AES-CTR encryption and decryption.
#[derive(Debug)]
pub struct SubtleAesCtrParams {
    pub name: AlgorithmName,
    pub counter: Vec<u8>,
    pub length: u8,
}

/// Parameters of AES key generation.
#[derive(Clone, Copy, Debug, PartialEq, Eq, Structural)]
pub struct SubtleAesKeyGenParams {
    pub name: AlgorithmName,
    pub length: u16,
}

/// Parameters of PBKDF2 bit derivation; `hash` is itself normalized for digesting.
#[derive(Debug)]
pub struct SubtlePbkdf2Params {
    pub salt: Vec<u8>,
    pub iterations: u32,
    pub hash: Box<NormalizedAlgorithm>,
}

/// A descriptor validated for one operation.
#[derive(Debug)]
pub enum NormalizedAlgorithm {
    Algorithm(SubtleAlgorithm),
    AesCbcParams(SubtleAesCbcParams),
    AesCtrParams(SubtleAesCtrParams),
    AesKeyGenParams(SubtleAesKeyGenParams),
    Pbkdf2Params(SubtlePbkdf2Params),
    Sha1,
    Sha256,
    Sha384,
    Sha512,
}

/// The name, among those the table lists, that an upper-cased name spells.
pub open spec fn recognized(upper: Seq<char>) -> Option<AlgorithmName> {
    if upper == AlgorithmName::AesCbc.spec_name() {
        Some(AlgorithmName::AesCbc)
    } else if upper == AlgorithmName::AesCtr.spec_name() {
        Some(AlgorithmName::AesCtr)
    } else if upper == AlgorithmName::Ecdsa.spec_name() {
        Some(AlgorithmName::Ecdsa)
    } else if upper == AlgorithmName::Hkdf.spec_name() {
        Some(AlgorithmName::Hkdf)
    } else if upper == AlgorithmName::Pbkdf2.spec_name() {
        Some(AlgorithmName::Pbkdf2)
    } else if upper == AlgorithmName::Sha1.spec_name() {
        Some(AlgorithmName::Sha1)
    } else if upper == AlgorithmName::Sha256.spec_name() {
        Some(AlgorithmName::Sha256)
    } else if upper == AlgorithmName::Sha384.spec_name() {
        Some(AlgorithmName::Sha384)
    } else if upper == AlgorithmName::Sha512.spec_name() {
        Some(AlgorithmName::Sha512)
    } else {
        None
    }
}

/// The digest row of the table, for an upper-cased name.
pub open spec fn digest_named(upper: Seq<char>) -> Result<NormalizedAlgorithm, Error> {
    match recognized(upper) {
        Some(AlgorithmName::Sha1) => Ok(NormalizedAlgorithm::Sha1),
        Some(AlgorithmName::Sha256) => Ok(NormalizedAlgorithm::Sha256),
        Some(AlgorithmName::Sha384) => Ok(NormalizedAlgorithm::Sha384),
        Some(AlgorithmName::Sha512) => Ok(NormalizedAlgorithm::Sha512),
        _ => Err(Error::NotSupported),
    }
}

/// A hash descriptor normalized for digesting.
pub open spec fn hash_normalized(h: AlgorithmIdentifier) -> Result<NormalizedAlgorithm, Error> {
    digest_named(uppercase_of(dictionary_of(h).name@))
}

/// What PBKDF2 parameters a descriptor gives.
pub open spec fn pbkdf2_params_of(d: Algorithm) -> Result<SubtlePbkdf2Params, Error> {
    match (d.salt, d.iterations, d.hash) {
        (Some(salt), Some(iterations), Some(h)) => match hash_normalized(*h) {
            Ok(hash) => Ok(SubtlePbkdf2Params { salt, iterations, hash: Box::new(hash) }),
            Err(e) => Err(e),
        },
        _ => Err(Error::Syntax),
    }
}

/// What AES-CBC parameters a descriptor gives.
pub open spec fn aes_cbc_params_of(d: Algorithm) -> Result<SubtleAesCbcParams, Error> {
    match d.iv {
        Some(iv) => Ok(SubtleAesCbcParams { name: AlgorithmName::AesCbc, iv }),
        None => Err(Error::Syntax),
    }
}

/// What AES-CTR parameters a descriptor gives; the counter length must fit in a byte.
pub open spec fn aes_ctr_params_of(d: Algorithm) -> Result<SubtleAesCtrParams, Error> {
    match (d.counter, d.length) {
        (Some(counter), Some(length)) => if length <= 0xff {
            Ok(SubtleAesCtrParams { name: AlgorithmName::AesCtr, counter, length: length as u8 })
        } else {
            Err(Error::Syntax)
        },
        _ => Err(Error::Syntax),
    }
}

/// What AES key generation parameters a descriptor gives; the length must fit in 16 bits.
pub open spec fn aes_key_gen_params_of(name: AlgorithmName, d: Algorithm) -> Result<
    SubtleAesKeyGenParams,
    Error,
> {
    match d.length {
        Some(length) => if length <= 0xffff {
            Ok(SubtleAesKeyGenParams { name, length: length as u16 })
        } else {
            Err(Error::Syntax)
        },
        None => Err(Error::Syntax),
    }
}

/// The table of supported (algorithm, operation) pairs, applied to a descriptor whose name
/// upper-cases to `upper`.
pub open spec fn normalized_named(upper: Seq<char>, d: Algorithm, op: Operation) -> Result<
    NormalizedAlgorithm,
    Error,
> {
    let name = recognized(upper);
    if !in_table(name, op) {
        Err(Error::NotSupported)
    } else {
        match (name->0, op) {
            (AlgorithmName::AesCbc, Operation::Encrypt)
            | (AlgorithmName::AesCbc, Operation::Decrypt) => match aes_cbc_params_of(d) {
                Ok(p) => Ok(NormalizedAlgorithm::AesCbcParams(p)),
                Err(e) => Err(e),
            },
            (AlgorithmName::AesCtr, Operation::Encrypt)
            | (AlgorithmName::AesCtr, Operation::Decrypt) => match aes_ctr_params_of(d) {
                Ok(p) => Ok(NormalizedAlgorithm::AesCtrParams(p)),
                Err(e) => Err(e),
            },
            (_, Operation::GenerateKey) => match aes_key_gen_params_of(name->0, d) {
                Ok(p) => Ok(NormalizedAlgorithm::AesKeyGenParams(p)),
                Err(e) => Err(e),
            },
            (AlgorithmName::Pbkdf2, Operation::DeriveBits) => match pbkdf2_params_of(d) {
                Ok(p) => Ok(NormalizedAlgorithm::Pbkdf2Params(p)),
                Err(e) => Err(e),
            },
            (_, Operation::Digest) => digest_named(upper),
            _ => Ok(NormalizedAlgorithm::Algorithm(SubtleAlgorithm { name: name->0 })),
        }
    }
}

/// The result of normalizing a descriptor for an operation.
pub open spec fn normalized(a: AlgorithmIdentifier, op: Operation) -> Result<
    NormalizedAlgorithm,
    Error,
> {
    let d = dictionary_of(a);
    normalized_named(uppercase_of(d.name@), d, op)
}

/// Whether the table has a row for the name and operation at all.
pub open spec fn in_table(name: Option<AlgorithmName>, op: Operation) -> bool {
    match (name, op) {
        (Some(AlgorithmName::AesCbc), Operation::Encrypt)
        | (Some(AlgorithmName::AesCbc), Operation::Decrypt)
        | (Some(AlgorithmName::AesCtr), Operation::Encrypt)
        | (Some(AlgorithmName::AesCtr), Operation::Decrypt)
        | (Some(AlgorithmName::AesCbc), Operation::GenerateKey)
        | (Some(AlgorithmName::AesCtr), Operation::GenerateKey)
        | (Some(AlgorithmName::Ecdsa), Operation::DeriveBits)
        | (Some(AlgorithmName::Hkdf), Operation::DeriveBits)
        | (Some(AlgorithmName::Pbkdf2), Operation::DeriveBits)
        | (Some(AlgorithmName::AesCbc), Operation::ImportKey)
        | (Some(AlgorithmName::AesCtr), Operation::ImportKey)
        | (Some(AlgorithmName::Pbkdf2), Operation::ImportKey)
        | (Some(AlgorithmName::Sha1), Operation::Digest)
        | (Some(AlgorithmName::Sha256), Operation::Digest)
        | (Some(AlgorithmName::Sha384), Operation::Digest)
        | (Some(AlgorithmName::Sha512), Operation::Digest) => true,
        _ => false,
    }
}

/// Whether the upper-cased string is the registered name.
fn spells(upper: &String, name: AlgorithmName) -> (r: bool)
    ensures
        r == (upper@ == name.spec_name()),
{
    let registered = String::from_str(name.as_str());
    *upper == registered
}

/// The table name that an upper-cased name spells, if any.
pub fn recognize(upper: &String) -> (r: Option<AlgorithmName>)
    ensures
        r == recognized(upper@),
{
    if spells(upper, AlgorithmName::AesCbc) {
        Some(AlgorithmName::AesCbc)
    } else if spells(upper, AlgorithmName::AesCtr) {
        Some(AlgorithmName::AesCtr)
    } else if spells(upper, AlgorithmName::Ecdsa) {
        Some(AlgorithmName::Ecdsa)
    } else if spells(upper, AlgorithmName::Hkdf) {
        Some(AlgorithmName::Hkdf)
    } else if spells(upper, AlgorithmName::Pbkdf2) {
        Some(AlgorithmName::Pbkdf2)
    } else if spells(upper, AlgorithmName::Sha1) {
        Some(AlgorithmName::Sha1)
    } else if spells(upper, AlgorithmName::Sha256) {
        Some(AlgorithmName::Sha256)
    } else if spells(upper, AlgorithmName::Sha384) {
        Some(AlgorithmName::Sha384)
    } else if spells(upper, AlgorithmName::Sha512) {
        Some(AlgorithmName::Sha512)
    } else {
        None
    }
}

/// Normalizes, for digesting, a descriptor whose name upper-cases to `upper`.
pub fn normalize_digest_named(upper: &String) -> (r: Result<NormalizedAlgorithm, Error>)
    ensures
        r == digest_named(upper@),
{
    match recognize(upper) {
        Some(AlgorithmName::Sha1) => Ok(NormalizedAlgorithm::Sha1),
        Some(AlgorithmName::Sha256) => Ok(NormalizedAlgorithm::Sha256),
        Some(AlgorithmName::Sha384) => Ok(NormalizedAlgorithm::Sha384),
        Some(AlgorithmName::Sha512) => Ok(NormalizedAlgorithm::Sha512),
        _ => Err(Error::NotSupported),
    }
}

/// Normalizes a hash descriptor for digesting.
pub fn normalize_hash(h: AlgorithmIdentifier) -> (r: Result<NormalizedAlgorithm, Error>)
    ensures
        r == hash_normalized(h),
{
    let d = Algorithm::from_identifier(h);
    let upper = to_uppercase(d.name.as_str());
    normalize_digest_named(&upper)
}

impl SubtleAesCbcParams {
    /// AES-CBC parameters from a descriptor, which must carry an `iv`.
    pub fn from_dictionary(d: Algorithm) -> (r: Result<SubtleAesCbcParams, Error>)
        ensures
            r == aes_cbc_params_of(d),
    {
        match d.iv {
            Some(iv) => Ok(SubtleAesCbcParams { name: AlgorithmName::AesCbc, iv }),
            None => Err(Error::Syntax),
        }
    }
}

impl SubtleAesCtrParams {
    /// AES-CTR parameters from a descriptor, which must carry a `counter` and a `length`
    /// that fits in a byte.
    pub fn from_dictionary(d: Algorithm) -> (r: Result<SubtleAesCtrParams, Error>)
        ensures
            r == aes_ctr_params_of(d),
    {
        match (d.counter, d.length) {
            (Some(counter), Some(length)) => {
                if length <= 0xff {
                    Ok(
                        SubtleAesCtrParams {
                            name: AlgorithmName::AesCtr,
                            counter,
                            length: length as u8,
                        },
                    )
                } else {
                    Err(Error::Syntax)
                }
            },
            _ => Err(Error::Syntax),
        }
    }
}

impl SubtleAesKeyGenParams {
    /// AES key generation parameters from a descriptor, which must carry a `length` that
    /// fits in 16 bits.
    pub fn from_dictionary(name: AlgorithmName, d: Algorithm) -> (r: Result<
        SubtleAesKeyGenParams,
        Error,
    >)
        ensures
            r == aes_key_gen_params_of(name, d),
    {
        match d.length {
            Some(length) => {
                if length <= 0xffff {
                    Ok(SubtleAesKeyGenParams { name, length: length as u16 })
                } else {
                    Err(Error::Syntax)
                }
            },
            None => Err(Error::Syntax),
        }
    }
}

impl SubtlePbkdf2Params {
    /// PBKDF2 parameters from a descriptor, which must carry a `salt`, an `iterations` count
    /// and a `hash` that normalizes for digesting.
    pub fn new(d: Algorithm) -> (r: Result<SubtlePbkdf2Params, Error>)
        ensures
            r == pbkdf2_params_of(d),
    {
        match (d.salt, d.iterations, d.hash) {
            (Some(salt), Some(iterations), Some(h)) => match normalize_hash(*h) {
                Ok(hash) => Ok(SubtlePbkdf2Params { salt, iterations, hash: Box::new(hash) }),
                Err(e) => Err(e),
            },
            _ => Err(Error::Syntax),
        }
    }
}

/// Applies the table to a descriptor whose name upper-cases to `upper`.
pub fn normalize_dictionary(upper: &String, d: Algorithm, op: Operation) -> (r: Result<
    NormalizedAlgorithm,
    Error,
>)
    ensures
        r == normalized_named(upper@, d, op),
{
    let name = recognize(upper);
    match (name, op) {
        (Some(AlgorithmName::AesCbc), Operation::Encrypt)
        | (Some(AlgorithmName::AesCbc), Operation::Decrypt) => {
            match SubtleAesCbcParams::from_dictionary(d) {
                Ok(p) => Ok(NormalizedAlgorithm::AesCbcParams(p)),
                Err(e) => Err(e),
            }
        },
        (Some(AlgorithmName::AesCtr), Operation::Encrypt)
        | (Some(AlgorithmName::AesCtr), Operation::Decrypt) => {
            match SubtleAesCtrParams::from_dictionary(d) {
                Ok(p) => Ok(NormalizedAlgorithm::AesCtrParams(p)),
                Err(e) => Err(e),
            }
        },
        (Some(AlgorithmName::AesCbc), Operation::GenerateKey) => {
            match SubtleAesKeyGenParams::from_dictionary(AlgorithmName::AesCbc, d) {
                Ok(p) => Ok(NormalizedAlgorithm::AesKeyGenParams(p)),
                Err(e) => Err(e),
            }
        },
        (Some(AlgorithmName::AesCtr), Operation::GenerateKey) => {
            match SubtleAesKeyGenParams::from_dictionary(AlgorithmName::AesCtr, d) {
                Ok(p) => Ok(NormalizedAlgorithm::AesKeyGenParams(p)),
                Err(e) => Err(e),
            }
        },
        (Some(AlgorithmName::Ecdsa), Operation::DeriveBits) => Ok(
            NormalizedAlgorithm::Algorithm(SubtleAlgorithm { name: AlgorithmName::Ecdsa }),
        ),
        (Some(AlgorithmName::Hkdf), Operation::DeriveBits) => Ok(
            NormalizedAlgorithm::Algorithm(SubtleAlgorithm { name: AlgorithmName::Hkdf }),
        ),
        (Some(AlgorithmName::Pbkdf2), Operation::DeriveBits) => {
            match SubtlePbkdf2Params::new(d) {
                Ok(p) => Ok(NormalizedAlgorithm::Pbkdf2Params(p)),
                Err(e) => Err(e),
            }
        },
        (Some(AlgorithmName::AesCbc), Operation::ImportKey) => Ok(
            NormalizedAlgorithm::Algorithm(SubtleAlgorithm { name: AlgorithmName::AesCbc }),
        ),
        (Some(AlgorithmName::AesCtr), Operation::ImportKey) => Ok(
            NormalizedAlgorithm::Algorithm(SubtleAlgorithm { name: AlgorithmName::AesCtr }),
        ),
        (Some(AlgorithmName::Pbkdf2), Operation::ImportKey) => Ok(
            NormalizedAlgorithm::Algorithm(SubtleAlgorithm { name: AlgorithmName::Pbkdf2 }),
        ),
        (Some(AlgorithmName::Sha1), Operation::Digest) => Ok(NormalizedAlgorithm::Sha1),
        (Some(AlgorithmName::Sha256), Operation::Digest) => Ok(NormalizedAlgorithm::Sha256),
        (Some(AlgorithmName::Sha384), Operation::Digest) => Ok(NormalizedAlgorithm::Sha384),
        (Some(AlgorithmName::Sha512), Operation::Digest) => Ok(NormalizedAlgorithm::Sha512),
        _ => Err(Error::NotSupported),
    }
}

/// Normalizes a raw descriptor for an operation: the name is upper-cased, then looked up
/// with the operation in the table; a bare name counts as an object with just that name.
pub fn normalize_algorithm(algorithm: AlgorithmIdentifier, op: Operation) -> (r: Result<
    NormalizedAlgorithm,
    Error,
>)
    ensures
        r == normalized(algorithm, op),
{
    let d = Algorithm::from_identifier(algorithm);
    let upper = to_uppercase(d.name.as_str());
    normalize_dictionary(&upper, d, op)
}

/// A descriptor whose upper-cased name and operation have no row in the table normalizes to
/// `NotSupported`, whatever other fields it carries.
pub proof fn lemma_unsupported_pair_rejected(a: AlgorithmIdentifier, op: Operation)
    requires
        !in_table(recognized(uppercase_of(dictionary_of(a).name@)), op),
    ensures
        normalized(a, op) == Err::<NormalizedAlgorithm, Error>(Error::NotSupported),
{
}

} // verus!
