//! AES-CBC and AES-CTR encryption and decryption.
use vstd::prelude::*;
use vstd::slice::slice_to_vec;

use crate::algorithm::{SubtleAesCbcParams, SubtleAesCtrParams};
use crate::error::Error;
use crate::key::{CryptoKey, Handle, KeyMaterial};
use crate::primitives::{
    aes128_cbc_decrypt, aes128_cbc_encrypt, aes128_ctr_apply, aes192_cbc_decrypt,
    aes192_cbc_encrypt, aes192_ctr_apply, aes256_cbc_decrypt, aes256_cbc_encrypt,
    aes256_ctr_apply, aes_cbc_decrypt_of, aes_cbc_encrypt_of, aes_ctr_keystream_byte,
};
use crate::subtle::SubtleCrypto;

verus! {

/// The bytes of a byte result.
pub open spec fn bytes_result(r: Result<Vec<u8>, Error>) -> Result<Seq<u8>, Error> {
    match r {
        Ok(v) => Ok(v@),
        Err(e) => Err(e),
    }
}

/// AES-CBC encryption: a 16-byte IV and an AES key are needed.
pub open spec fn cbc_encrypt_result(iv: Seq<u8>, key: KeyMaterial, data: Seq<u8>) -> Result<
    Seq<u8>,
    Error,
> {
    if iv.len() != 16 {
        Err(Error::Operation)
    } else {
        match key.aes_bytes() {
            Some(k) => Ok(aes_cbc_encrypt_of(k, iv, data)),
            None => Err(Error::Data),
        }
    }
}

/// AES-CBC decryption: a 16-byte IV and an AES key are needed, and invalid length or
/// padding is an operation error.
pub open spec fn cbc_decrypt_result(iv: Seq<u8>, key: KeyMaterial, data: Seq<u8>) -> Result<
    Seq<u8>,
    Error,
> {
    if iv.len() != 16 {
        Err(Error::Operation)
    } else {
        match key.aes_bytes() {
            Some(k) => match aes_cbc_decrypt_of(k, iv, data) {
                Some(p) => Ok(p),
                None => Err(Error::Operation),
            },
            None => Err(Error::Data),
        }
    }
}

/// The data XORed, byte by byte, with the AES-CTR keystream.
pub open spec fn ctr_keystream_xor(key: Seq<u8>, counter: Seq<u8>, data: Seq<u8>) -> Seq<u8> {
    Seq::new(data.len(), |i: int| data[i] ^ aes_ctr_keystream_byte(key, counter, i))
}

/// AES-CTR encryption or decryption: a 16-byte counter block, a counter length of 1 to 128
/// bits and an AES key are needed.
pub open spec fn ctr_result(counter: Seq<u8>, length: u8, key: KeyMaterial, data: Seq<u8>) -> Result<
    Seq<u8>,
    Error,
> {
    if counter.len() != 16 || length == 0 || length > 128 {
        Err(Error::Operation)
    } else {
        match key.aes_bytes() {
            Some(k) => Ok(ctr_keystream_xor(k, counter, data)),
            None => Err(Error::Data),
        }
    }
}

impl SubtleCrypto {
    /// Encrypts with AES-CBC and PKCS#7 padding; the ciphertext is a whole number of blocks,
    /// longer than the plaintext.
    pub fn encrypt_aes_cbc(&self, params: SubtleAesCbcParams, key: &CryptoKey, data: &[u8]) -> (r:
        Result<Vec<u8>, Error>)
        ensures
            bytes_result(r) == cbc_encrypt_result(params.iv@, key@.handle, data@),
            r matches Ok(c) ==> c@.len() % 16 == 0 && c@.len() > data@.len(),
    {
        if params.iv.len() != 16 {
            return Err(Error::Operation);
        }
        proof {
            use_type_invariant(key);
        }
        let iv = params.iv.as_slice();
        match key.handle() {
            Handle::Aes128(k) => Ok(aes128_cbc_encrypt(k.as_slice(), iv, data)),
            Handle::Aes192(k) => Ok(aes192_cbc_encrypt(k.as_slice(), iv, data)),
            Handle::Aes256(k) => Ok(aes256_cbc_encrypt(k.as_slice(), iv, data)),
            Handle::Pbkdf2(_) => Err(Error::Data),
        }
    }

    /// Decrypts with AES-CBC and removes PKCS#7 padding. What `encrypt_aes_cbc` made from a
    /// plaintext, under the same key and IV, decrypts to that plaintext.
    pub fn decrypt_aes_cbc(&self, params: SubtleAesCbcParams, key: &CryptoKey, data: &[u8]) -> (r:
        Result<Vec<u8>, Error>)
        ensures
            bytes_result(r) == cbc_decrypt_result(params.iv@, key@.handle, data@),
            forall|p: Seq<u8>|
                cbc_encrypt_result(params.iv@, key@.handle, p) == Ok::<Seq<u8>, Error>(data@)
                    ==> bytes_result(r) == Ok::<Seq<u8>, Error>(p),
    {
        if params.iv.len() != 16 {
            return Err(Error::Operation);
        }
        proof {
            use_type_invariant(key);
        }
        let iv = params.iv.as_slice();
        let plaintext = match key.handle() {
            Handle::Aes128(k) => aes128_cbc_decrypt(k.as_slice(), iv, data),
            Handle::Aes192(k) => aes192_cbc_decrypt(k.as_slice(), iv, data),
            Handle::Aes256(k) => aes256_cbc_decrypt(k.as_slice(), iv, data),
            Handle::Pbkdf2(_) => {
                return Err(Error::Data);
            },
        };
        match plaintext {
            Some(p) => Ok(p),
            None => Err(Error::Operation),
        }
    }

    /// Encrypts or decrypts with AES-CTR: the data XORed with the keystream of a 64-bit
    /// big-endian counter.
    pub fn encrypt_decrypt_aes_ctr(&self, params: SubtleAesCtrParams, key: &CryptoKey, data: &[u8]) -> (r:
        Result<Vec<u8>, Error>)
        ensures
            bytes_result(r) == ctr_result(params.counter@, params.length, key@.handle, data@),
    {
        if params.counter.len() != 16 || params.length == 0 || params.length > 128 {
            return Err(Error::Operation);
        }
        proof {
            use_type_invariant(key);
        }
        let counter = params.counter.as_slice();
        let mut out = slice_to_vec(data);
        match key.handle() {
            Handle::Aes128(k) => aes128_ctr_apply(k.as_slice(), counter, &mut out),
            Handle::Aes192(k) => aes192_ctr_apply(k.as_slice(), counter, &mut out),
            Handle::Aes256(k) => aes256_ctr_apply(k.as_slice(), counter, &mut out),
            Handle::Pbkdf2(_) => {
                return Err(Error::Data);
            },
        }
        assert(out@ =~= ctr_keystream_xor(key@.handle.aes_bytes()->0, counter@, data@));
        Ok(out)
    }
}

proof fn lemma_xor_twice(b: u8, s: u8)
    ensures
        (b ^ s) ^ s == b,
{
    assert((b ^ s) ^ s == b) by (bit_vector);
}

/// AES-CTR is its own inverse: applying it twice with the same counter block, counter length
/// and key gives back the data.
pub proof fn lemma_ctr_self_inverse(counter: Seq<u8>, length: u8, key: KeyMaterial, data: Seq<u8>)
    ensures
        ctr_result(counter, length, key, data) matches Ok(e) ==> ctr_result(counter, length, key, e)
            == Ok::<Seq<u8>, Error>(data),
{
    if ctr_result(counter, length, key, data) is Ok {
        let k = key.aes_bytes()->0;
        let e = ctr_keystream_xor(k, counter, data);
        assert forall|i: int| 0 <= i < data.len() implies #[trigger] ctr_keystream_xor(
            k,
            counter,
            e,
        )[i] == data[i] by {
            lemma_xor_twice(data[i], aes_ctr_keystream_byte(k, counter, i));
        }
        assert(ctr_keystream_xor(k, counter, e) =~= data);
    }
}

} // verus!
