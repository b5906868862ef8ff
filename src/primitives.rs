//! The calls into outside code that the engine makes, each behind a small
//! function whose contract states what the outside code documents.
use vstd::prelude::*;

use aes::cipher::block_padding::Pkcs7;
use aes::cipher::generic_array::GenericArray;
use aes::cipher::{BlockDecryptMut, BlockEncryptMut, KeyIvInit, StreamCipher};
use base64::Engine;
use rand::RngCore;

use crate::algorithm::ShaAlgorithm;

verus! {

/// Inputs to the hash functions are kept below this many bytes, far under the
/// limits of SHA-1 and SHA-2 (2^61 bytes and more).
pub const MAX_HASH_INPUT: u64 = 0x1000_0000_0000_0000;

/// AES-CBC encryption with PKCS#7 padding; the AES variant is the one whose key
/// size is the key's length.
pub uninterp spec fn aes_cbc_encrypt_of(key: Seq<u8>, iv: Seq<u8>, plaintext: Seq<u8>) -> Seq<u8>;

/// AES-CBC decryption followed by removal of PKCS#7 padding; nothing when the
/// length or the padding is invalid.
pub uninterp spec fn aes_cbc_decrypt_of(key: Seq<u8>, iv: Seq<u8>, ciphertext: Seq<u8>) -> Option<
    Seq<u8>,
>;

/// Byte `i` of the AES-CTR keystream (64-bit big-endian counter) that the key
/// and the initial counter block determine.
pub uninterp spec fn aes_ctr_keystream_byte(key: Seq<u8>, counter: Seq<u8>, i: int) -> u8;

/// The SHA digest of the data.
pub uninterp spec fn sha_digest_of(alg: ShaAlgorithm, data: Seq<u8>) -> Seq<u8>;

/// PBKDF2 with HMAC over the given hash: `len` bytes derived from the password
/// `secret` and the salt in `iterations` rounds.
pub uninterp spec fn pbkdf2_of(
    hash: ShaAlgorithm,
    iterations: u32,
    salt: Seq<u8>,
    secret: Seq<u8>,
    len: nat,
) -> Seq<u8>;

/// Unpadded base64url text of the bytes.
pub uninterp spec fn base64url_encode_of(bytes: Seq<u8>) -> Seq<char>;

/// The bytes that canonical, padded base64url text stands for; nothing for other text.
pub uninterp spec fn base64url_decode_of(text: Seq<char>) -> Option<Seq<u8>>;

/// Unicode upper case of the characters.
pub uninterp spec fn uppercase_of(s: Seq<char>) -> Seq<char>;

/// Relies on `str::to_uppercase`: the upper case of a string depends on its characters alone.
#[verifier::external_body]
pub(crate) fn to_uppercase(s: &str) -> (r: String)
    ensures
        r@ == uppercase_of(s@),
{
    s.to_uppercase()
}

/// Relies on `cbc::Encryptor::<Aes128>::encrypt_padded_vec_mut::<Pkcs7>`: CBC encryption of
/// the PKCS#7-padded plaintext, which always adds 1 to 16 bytes of padding.
#[verifier::external_body]
pub(crate) fn aes128_cbc_encrypt(key: &[u8], iv: &[u8], plaintext: &[u8]) -> (r: Vec<u8>)
    requires
        key@.len() == 16,
        iv@.len() == 16,
    ensures
        r@ == aes_cbc_encrypt_of(key@, iv@, plaintext@),
        r@.len() == (plaintext@.len() / 16 + 1) * 16,
{
    let key = GenericArray::from_slice(key);
    let iv = GenericArray::from_slice(iv);
    cbc::Encryptor::<aes::Aes128>::new(key, iv).encrypt_padded_vec_mut::<Pkcs7>(plaintext)
}

/// Relies on `cbc::Encryptor::<Aes192>::encrypt_padded_vec_mut::<Pkcs7>`: CBC encryption of
/// the PKCS#7-padded plaintext, which always adds 1 to 16 bytes of padding.
#[verifier::external_body]
pub(crate) fn aes192_cbc_encrypt(key: &[u8], iv: &[u8], plaintext: &[u8]) -> (r: Vec<u8>)
    requires
        key@.len() == 24,
        iv@.len() == 16,
    ensures
        r@ == aes_cbc_encrypt_of(key@, iv@, plaintext@),
        r@.len() == (plaintext@.len() / 16 + 1) * 16,
{
    let key = GenericArray::from_slice(key);
    let iv = GenericArray::from_slice(iv);
    cbc::Encryptor::<aes::Aes192>::new(key, iv).encrypt_padded_vec_mut::<Pkcs7>(plaintext)
}

/// Relies on `cbc::Encryptor::<Aes256>::encrypt_padded_vec_mut::<Pkcs7>`: CBC encryption of
/// the PKCS#7-padded plaintext, which always adds 1 to 16 bytes of padding.
#[verifier::external_body]
pub(crate) fn aes256_cbc_encrypt(key: &[u8], iv: &[u8], plaintext: &[u8]) -> (r: Vec<u8>)
    requires
        key@.len() == 32,
        iv@.len() == 16,
    ensures
        r@ == aes_cbc_encrypt_of(key@, iv@, plaintext@),
        r@.len() == (plaintext@.len() / 16 + 1) * 16,
{
    let key = GenericArray::from_slice(key);
    let iv = GenericArray::from_slice(iv);
    cbc::Encryptor::<aes::Aes256>::new(key, iv).encrypt_padded_vec_mut::<Pkcs7>(plaintext)
}

/// Relies on `cbc::Decryptor::<Aes128>::decrypt_padded_vec_mut::<Pkcs7>`: it fails on a length
/// that is not a positive multiple of the block size or on malformed padding, and gives back
/// the plaintext of what the matching encryption produced.
#[verifier::external_body]
pub(crate) fn aes128_cbc_decrypt(key: &[u8], iv: &[u8], ciphertext: &[u8]) -> (r: Option<Vec<u8>>)
    requires
        key@.len() == 16,
        iv@.len() == 16,
    ensures
        r matches Some(v) ==> aes_cbc_decrypt_of(key@, iv@, ciphertext@) == Some(v@),
        r is None ==> aes_cbc_decrypt_of(key@, iv@, ciphertext@) is None,
        ciphertext@.len() % 16 != 0 || ciphertext@.len() == 0 ==> r is None,
        forall|p: Seq<u8>|
            aes_cbc_encrypt_of(key@, iv@, p) == ciphertext@ ==> r.is_some() && r->0@ == p,
{
    let key = GenericArray::from_slice(key);
    let iv = GenericArray::from_slice(iv);
    cbc::Decryptor::<aes::Aes128>::new(key, iv).decrypt_padded_vec_mut::<Pkcs7>(ciphertext).ok()
}

/// Relies on `cbc::Decryptor::<Aes192>::decrypt_padded_vec_mut::<Pkcs7>`: it fails on a length
/// that is not a positive multiple of the block size or on malformed padding, and gives back
/// the plaintext of what the matching encryption produced.
#[verifier::external_body]
pub(crate) fn aes192_cbc_decrypt(key: &[u8], iv: &[u8], ciphertext: &[u8]) -> (r: Option<Vec<u8>>)
    requires
        key@.len() == 24,
        iv@.len() == 16,
    ensures
        r matches Some(v) ==> aes_cbc_decrypt_of(key@, iv@, ciphertext@) == Some(v@),
        r is None ==> aes_cbc_decrypt_of(key@, iv@, ciphertext@) is None,
        ciphertext@.len() % 16 != 0 || ciphertext@.len() == 0 ==> r is None,
        forall|p: Seq<u8>|
            aes_cbc_encrypt_of(key@, iv@, p) == ciphertext@ ==> r.is_some() && r->0@ == p,
{
    let key = GenericArray::from_slice(key);
    let iv = GenericArray::from_slice(iv);
    cbc::Decryptor::<aes::Aes192>::new(key, iv).decrypt_padded_vec_mut::<Pkcs7>(ciphertext).ok()
}

/// Relies on `cbc::Decryptor::<Aes256>::decrypt_padded_vec_mut::<Pkcs7>`: it fails on a length
/// that is not a positive multiple of the block size or on malformed padding, and gives back
/// the plaintext of what the matching encryption produced.
#[verifier::external_body]
pub(crate) fn aes256_cbc_decrypt(key: &[u8], iv: &[u8], ciphertext: &[u8]) -> (r: Option<Vec<u8>>)
    requires
        key@.len() == 32,
        iv@.len() == 16,
    ensures
        r matches Some(v) ==> aes_cbc_decrypt_of(key@, iv@, ciphertext@) == Some(v@),
        r is None ==> aes_cbc_decrypt_of(key@, iv@, ciphertext@) is None,
        ciphertext@.len() % 16 != 0 || ciphertext@.len() == 0 ==> r is None,
        forall|p: Seq<u8>|
            aes_cbc_encrypt_of(key@, iv@, p) == ciphertext@ ==> r.is_some() && r->0@ == p,
{
    let key = GenericArray::from_slice(key);
    let iv = GenericArray::from_slice(iv);
    cbc::Decryptor::<aes::Aes256>::new(key, iv).decrypt_padded_vec_mut::<Pkcs7>(ciphertext).ok()
}

/// Relies on `ctr::Ctr64BE::<Aes128>::apply_keystream`: XORs the data in place with the
/// keystream; the 64-bit counter has room for more blocks than memory holds.
#[verifier::external_body]
pub(crate) fn aes128_ctr_apply(key: &[u8], counter: &[u8], data: &mut Vec<u8>)
    requires
        key@.len() == 16,
        counter@.len() == 16,
    ensures
        final(data)@.len() == old(data)@.len(),
        forall|i: int|
            0 <= i < old(data)@.len() ==> #[trigger] final(data)@[i] == old(data)@[i]
                ^ aes_ctr_keystream_byte(key@, counter@, i),
{
    let key = GenericArray::from_slice(key);
    let counter = GenericArray::from_slice(counter);
    ctr::Ctr64BE::<aes::Aes128>::new(key, counter).apply_keystream(data.as_mut_slice())
}

/// Relies on `ctr::Ctr64BE::<Aes192>::apply_keystream`: XORs the data in place with the
/// keystream; the 64-bit counter has room for more blocks than memory holds.
#[verifier::external_body]
pub(crate) fn aes192_ctr_apply(key: &[u8], counter: &[u8], data: &mut Vec<u8>)
    requires
        key@.len() == 24,
        counter@.len() == 16,
    ensures
        final(data)@.len() == old(data)@.len(),
        forall|i: int|
            0 <= i < old(data)@.len() ==> #[trigger] final(data)@[i] == old(data)@[i]
                ^ aes_ctr_keystream_byte(key@, counter@, i),
{
    let key = GenericArray::from_slice(key);
    let counter = GenericArray::from_slice(counter);
    ctr::Ctr64BE::<aes::Aes192>::new(key, counter).apply_keystream(data.as_mut_slice())
}

/// Relies on `ctr::Ctr64BE::<Aes256>::apply_keystream`: XORs the data in place with the
/// keystream; the 64-bit counter has room for more blocks than memory holds.
#[verifier::external_body]
pub(crate) fn aes256_ctr_apply(key: &[u8], counter: &[u8], data: &mut Vec<u8>)
    requires
        key@.len() == 32,
        counter@.len() == 16,
    ensures
        final(data)@.len() == old(data)@.len(),
        forall|i: int|
            0 <= i < old(data)@.len() ==> #[trigger] final(data)@[i] == old(data)@[i]
                ^ aes_ctr_keystream_byte(key@, counter@, i),
{
    let key = GenericArray::from_slice(key);
    let counter = GenericArray::from_slice(counter);
    ctr::Ctr64BE::<aes::Aes256>::new(key, counter).apply_keystream(data.as_mut_slice())
}

/// Relies on `ring::digest::digest` with `SHA1_FOR_LEGACY_USE_ONLY`, `SHA256`, `SHA384` or
/// `SHA512`: the digest has that function's output length.
#[verifier::external_body]
pub(crate) fn sha_digest(alg: ShaAlgorithm, data: &[u8]) -> (r: Vec<u8>)
    requires
        data@.len() < MAX_HASH_INPUT,
    ensures
        r@ == sha_digest_of(alg, data@),
        r@.len() == alg.output_len(),
{
    let algorithm = match alg {
        ShaAlgorithm::Sha1 => &ring::digest::SHA1_FOR_LEGACY_USE_ONLY,
        ShaAlgorithm::Sha256 => &ring::digest::SHA256,
        ShaAlgorithm::Sha384 => &ring::digest::SHA384,
        ShaAlgorithm::Sha512 => &ring::digest::SHA512,
    };
    ring::digest::digest(algorithm, data).as_ref().to_vec()
}

/// Relies on `ring::pbkdf2::derive` with `PBKDF2_HMAC_SHA1`, `PBKDF2_HMAC_SHA256`,
/// `PBKDF2_HMAC_SHA384` or `PBKDF2_HMAC_SHA512`: it fills the whole output buffer, and does
/// not panic for a non-zero iteration count, an output of at most `u32::MAX` bytes and inputs
/// of the sizes admitted here.
#[verifier::external_body]
pub(crate) fn pbkdf2_derive(
    hash: ShaAlgorithm,
    iterations: u32,
    salt: &[u8],
    secret: &[u8],
    out: &mut Vec<u8>,
)
    requires
        iterations > 0,
        old(out)@.len() <= u32::MAX,
        salt@.len() < MAX_HASH_INPUT,
        secret@.len() < MAX_HASH_INPUT,
    ensures
        final(out)@ == pbkdf2_of(hash, iterations, salt@, secret@, old(out)@.len()),
        final(out)@.len() == old(out)@.len(),
{
    let algorithm = match hash {
        ShaAlgorithm::Sha1 => ring::pbkdf2::PBKDF2_HMAC_SHA1,
        ShaAlgorithm::Sha256 => ring::pbkdf2::PBKDF2_HMAC_SHA256,
        ShaAlgorithm::Sha384 => ring::pbkdf2::PBKDF2_HMAC_SHA384,
        ShaAlgorithm::Sha512 => ring::pbkdf2::PBKDF2_HMAC_SHA512,
    };
    let iterations = std::num::NonZeroU32::new(iterations).unwrap();
    ring::pbkdf2::derive(algorithm, iterations, salt, secret, out.as_mut_slice())
}

/// Relies on base64's `URL_SAFE_NO_PAD.encode`: base64url text without `=` padding.
#[verifier::external_body]
pub(crate) fn base64url_encode(bytes: &[u8]) -> (r: String)
    requires
        bytes@.len() <= 0x3fff_ffff,
    ensures
        r@ == base64url_encode_of(bytes@),
{
    base64::engine::general_purpose::URL_SAFE_NO_PAD.encode(bytes)
}

/// Relies on base64's `URL_SAFE.decode`: the decoded bytes, or its `DecodeError` on text that
/// is not canonical padded base64url.
#[verifier::external_body]
pub(crate) fn base64url_decode(text: &str) -> (r: Option<Vec<u8>>)
    ensures
        r matches Some(v) ==> base64url_decode_of(text@) == Some(v@),
        r is None ==> base64url_decode_of(text@) is None,
{
    base64::engine::general_purpose::URL_SAFE.decode(text).ok()
}

/// Relies on `rand::rngs::OsRng::try_fill_bytes`: it overwrites the buffer with bytes from
/// the operating system's secure generator, or reports that the generator failed.
#[verifier::external_body]
pub(crate) fn fill_random(buf: &mut Vec<u8>) -> (ok: bool)
    ensures
        final(buf)@.len() == old(buf)@.len(),
{
    rand::rngs::OsRng.try_fill_bytes(buf.as_mut_slice()).is_ok()
}

} // verus!
