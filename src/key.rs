//! Keys: their handles, metadata and usage rules, and the forms they export to.
use vstd::prelude::*;

use crate::algorithm::AlgorithmName;

verus! {

#[derive(Clone, Copy, Debug, PartialEq, Eq, Structural)]
pub enum KeyType {
    Public,
    Private,
    Secret,
}

#[derive(Clone, Copy, Debug, PartialEq, Eq, Structural)]
pub enum KeyUsage {
    Encrypt,
    Decrypt,
    Sign,
    Verify,
    DeriveKey,
    DeriveBits,
    WrapKey,
    UnwrapKey,
}

#[derive(Clone, Copy, Debug, PartialEq, Eq, Structural)]
pub enum KeyFormat {
    Raw,
    Spki,
    Pkcs8,
    Jwk,
}

/// Secret key bytes, tagged by the algorithm family they serve.
#[derive(Debug)]
pub enum Handle {
    Aes128(Vec<u8>),
    Aes192(Vec<u8>),
    Aes256(Vec<u8>),
    Pbkdf2(Vec<u8>),
}

/// The contents of a `Handle`.
pub enum KeyMaterial {
    Aes128(Seq<u8>),
    Aes192(Seq<u8>),
    Aes256(Seq<u8>),
    Pbkdf2(Seq<u8>),
}

impl View for Handle {
    type V = KeyMaterial;

    open spec fn view(&self) -> KeyMaterial {
        match self {
            Handle::Aes128(k) => KeyMaterial::Aes128(k@),
            Handle::Aes192(k) => KeyMaterial::Aes192(k@),
            Handle::Aes256(k) => KeyMaterial::Aes256(k@),
            Handle::Pbkdf2(k) => KeyMaterial::Pbkdf2(k@),
        }
    }
}

impl KeyMaterial {
    /// The key bytes, whatever the family.
    pub open spec fn bytes(self) -> Seq<u8> {
        match self {
            KeyMaterial::Aes128(k) => k,
            KeyMaterial::Aes192(k) => k,
            KeyMaterial::Aes256(k) => k,
            KeyMaterial::Pbkdf2(k) => k,
        }
    }

    /// The key bytes of an AES key.
    pub open spec fn aes_bytes(self) -> Option<Seq<u8>> {
        match self {
            KeyMaterial::Aes128(k) => Some(k),
            KeyMaterial::Aes192(k) => Some(k),
            KeyMaterial::Aes256(k) => Some(k),
            KeyMaterial::Pbkdf2(_) => None,
        }
    }

    /// The AES material of the given bytes, tagged by their length; none for other lengths.
    pub open spec fn aes_of(bytes: Seq<u8>) -> Option<KeyMaterial> {
        if bytes.len() == 16 {
            Some(KeyMaterial::Aes128(bytes))
        } else if bytes.len() == 24 {
            Some(KeyMaterial::Aes192(bytes))
        } else if bytes.len() == 32 {
            Some(KeyMaterial::Aes256(bytes))
        } else {
            None
        }
    }
}

impl Handle {
    pub fn as_bytes(&self) -> (r: &[u8])
        ensures
            r@ == self@.bytes(),
    {
        match self {
            Handle::Aes128(k) => k.as_slice(),
            Handle::Aes192(k) => k.as_slice(),
            Handle::Aes256(k) => k.as_slice(),
            Handle::Pbkdf2(k) => k.as_slice(),
        }
    }
}

/// The algorithm a key belongs to, with its length in bits for AES keys.
#[derive(Clone, Copy, Debug, PartialEq, Eq, Structural)]
pub struct KeyAlgorithm {
    pub name: AlgorithmName,
    pub length: Option<u16>,
}

impl KeyAlgorithm {
    pub fn from_name(name: AlgorithmName) -> (r: KeyAlgorithm)
        ensures
            r == (KeyAlgorithm { name, length: None }),
    {
        KeyAlgorithm { name, length: None }
    }

    pub fn from_name_and_size(name: AlgorithmName, size: u16) -> (r: KeyAlgorithm)
        ensures
            r == (KeyAlgorithm { name, length: Some(size) }),
    {
        KeyAlgorithm { name, length: Some(size) }
    }
}

/// Usages an AES key may carry.
pub open spec fn is_aes_usage(u: KeyUsage) -> bool {
    u == KeyUsage::Encrypt || u == KeyUsage::Decrypt || u == KeyUsage::WrapKey || u
        == KeyUsage::UnwrapKey
}

/// Usages a PBKDF2 key may carry.
pub open spec fn is_pbkdf2_usage(u: KeyUsage) -> bool {
    u == KeyUsage::DeriveKey || u == KeyUsage::DeriveBits
}

/// A usage list fit for an AES key: non-empty, and AES usages only.
pub open spec fn aes_usages_ok(usages: Seq<KeyUsage>) -> bool {
    usages.len() > 0 && forall|i: int| 0 <= i < usages.len() ==> is_aes_usage(#[trigger] usages[i])
}

/// A usage list fit for a PBKDF2 key: non-empty, and derivation usages only.
pub open spec fn pbkdf2_usages_ok(usages: Seq<KeyUsage>) -> bool {
    usages.len() > 0 && forall|i: int|
        0 <= i < usages.len() ==> is_pbkdf2_usage(#[trigger] usages[i])
}

/// The names an AES key can belong to.
pub open spec fn is_aes_name(name: AlgorithmName) -> bool {
    name == AlgorithmName::AesCbc || name == AlgorithmName::AesCtr
}

/// What a key holds.
pub struct KeyModel {
    pub key_type: KeyType,
    pub extractable: bool,
    pub algorithm: KeyAlgorithm,
    pub usages: Seq<KeyUsage>,
    pub handle: KeyMaterial,
}

impl KeyModel {
    /// The invariant of every key: a secret, non-empty usages that its family allows, and
    /// material whose length matches its tag and its algorithm's length; PBKDF2 secrets are
    /// never extractable.
    pub open spec fn wf(self) -> bool {
        &&& self.key_type == KeyType::Secret
        &&& match self.handle {
            KeyMaterial::Pbkdf2(_) => {
                &&& self.algorithm == KeyAlgorithm { name: AlgorithmName::Pbkdf2, length: None }
                &&& pbkdf2_usages_ok(self.usages)
                &&& !self.extractable
            },
            _ => {
                &&& is_aes_name(self.algorithm.name)
                &&& aes_usages_ok(self.usages)
                &&& KeyMaterial::aes_of(self.handle.bytes()) == Some(self.handle)
                &&& self.algorithm.length == Some((self.handle.bytes().len() * 8) as u16)
            },
        }
    }
}

/// A secret key with its metadata; immutable once made.
#[derive(Debug)]
pub struct CryptoKey {
    key_type: KeyType,
    extractable: bool,
    algorithm: KeyAlgorithm,
    usages: Vec<KeyUsage>,
    handle: Handle,
}

impl View for CryptoKey {
    type V = KeyModel;

    closed spec fn view(&self) -> KeyModel {
        KeyModel {
            key_type: self.key_type,
            extractable: self.extractable,
            algorithm: self.algorithm,
            usages: self.usages@,
            handle: self.handle@,
        }
    }
}

impl CryptoKey {
    /// Every key satisfies `wf`; `use_type_invariant` brings that fact into a proof.
    #[verifier::type_invariant]
    pub open spec fn inv(self) -> bool {
        self@.wf()
    }

    pub(crate) fn new(
        key_type: KeyType,
        extractable: bool,
        algorithm: KeyAlgorithm,
        usages: Vec<KeyUsage>,
        handle: Handle,
    ) -> (r: CryptoKey)
        requires
            (KeyModel { key_type, extractable, algorithm, usages: usages@, handle: handle@ }).wf(),
        ensures
            r@ == (KeyModel { key_type, extractable, algorithm, usages: usages@, handle: handle@ }),
    {
        CryptoKey { key_type, extractable, algorithm, usages, handle }
    }

    pub fn key_type(&self) -> (r: KeyType)
        ensures
            r == self@.key_type,
    {
        self.key_type
    }

    pub fn extractable(&self) -> (r: bool)
        ensures
            r == self@.extractable,
    {
        self.extractable
    }

    pub fn algorithm(&self) -> (r: KeyAlgorithm)
        ensures
            r == self@.algorithm,
    {
        self.algorithm
    }

    pub fn usages(&self) -> (r: &Vec<KeyUsage>)
        ensures
            r@ == self@.usages,
    {
        &self.usages
    }

    pub fn handle(&self) -> (r: &Handle)
        ensures
            r@ == self@.handle,
    {
        &self.handle
    }
}

/// Whether a usage list is fit for an AES key.
pub fn aes_usages_valid(usages: &Vec<KeyUsage>) -> (r: bool)
    ensures
        r == aes_usages_ok(usages@),
{
    if usages.len() == 0 {
        return false;
    }
    let mut i: usize = 0;
    while i < usages.len()
        invariant
            i <= usages@.len(),
            forall|j: int| 0 <= j < i ==> is_aes_usage(#[trigger] usages@[j]),
        decreases usages@.len() - i,
    {
        match usages[i] {
            KeyUsage::Encrypt | KeyUsage::Decrypt | KeyUsage::WrapKey | KeyUsage::UnwrapKey => {},
            _ => {
                return false;
            },
        }
        i = i + 1;
    }
    true
}

/// Whether a usage list is fit for a PBKDF2 key.
pub fn pbkdf2_usages_valid(usages: &Vec<KeyUsage>) -> (r: bool)
    ensures
        r == pbkdf2_usages_ok(usages@),
{
    if usages.len() == 0 {
        return false;
    }
    let mut i: usize = 0;
    while i < usages.len()
        invariant
            i <= usages@.len(),
            forall|j: int| 0 <= j < i ==> is_pbkdf2_usage(#[trigger] usages@[j]),
        decreases usages@.len() - i,
    {
        match usages[i] {
            KeyUsage::DeriveKey | KeyUsage::DeriveBits => {},
            _ => {
                return false;
            },
        }
        i = i + 1;
    }
    true
}

/// Whether a usage list contains the usage.
pub fn has_usage(usages: &Vec<KeyUsage>, usage: KeyUsage) -> (r: bool)
    ensures
        r == usages@.contains(usage),
{
    let mut i: usize = 0;
    while i < usages.len()
        invariant
            i <= usages@.len(),
            forall|j: int| 0 <= j < i ==> usages@[j] != usage,
        decreases usages@.len() - i,
    {
        if usages[i] == usage {
            return true;
        }
        i = i + 1;
    }
    false
}

/// A JSON Web Key, field by field.
#[derive(Debug)]
pub struct JsonWebKey {
    pub kty: Option<String>,
    pub use_: Option<String>,
    pub key_ops: Option<Vec<String>>,
    pub alg: Option<String>,
    pub ext: Option<bool>,
    pub crv: Option<String>,
    pub x: Option<String>,
    pub y: Option<String>,
    pub d: Option<String>,
    pub n: Option<String>,
    pub e: Option<String>,
    pub p: Option<String>,
    pub q: Option<String>,
    pub dp: Option<String>,
    pub dq: Option<String>,
    pub qi: Option<String>,
    pub k: Option<String>,
}

/// An exported AES key.
#[derive(Debug)]
pub enum AesExportedKey {
    Raw(Vec<u8>),
    Jwk(Box<JsonWebKey>),
}

/// Key data handed to an import: bytes, or a JSON Web Key.
#[derive(Debug)]
pub enum KeyData {
    Bytes(Vec<u8>),
    Jwk(JsonWebKey),
}

} // verus!
