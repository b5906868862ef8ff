//! SHA digests.
use vstd::prelude::*;

use crate::algorithm::NormalizedAlgorithm;
use crate::cipher::bytes_result;
use crate::error::Error;
use crate::lifecycle::sha_of;
use crate::primitives::{sha_digest, sha_digest_of, MAX_HASH_INPUT};
use crate::algorithm::ShaAlgorithm;

verus! {

/// Digesting with a normalized algorithm: only the SHA functions digest.
pub open spec fn digest_result(n: NormalizedAlgorithm, data: Seq<u8>) -> Result<Seq<u8>, Error> {
    match sha_of(n) {
        Some(h) => Ok(sha_digest_of(h, data)),
        None => Err(Error::NotSupported),
    }
}

impl NormalizedAlgorithm {
    /// The digest of the data: 20, 32, 48 or 64 bytes for SHA-1, SHA-256, SHA-384 and SHA-512.
    pub fn digest(&self, data: &[u8]) -> (r: Result<Vec<u8>, Error>)
        requires
            data@.len() < MAX_HASH_INPUT,
        ensures
            bytes_result(r) == digest_result(*self, data@),
            r matches Ok(d) ==> sha_of(*self) matches Some(h) && d@.len() == h.output_len(),
    {
        let algorithm = match self {
            NormalizedAlgorithm::Sha1 => ShaAlgorithm::Sha1,
            NormalizedAlgorithm::Sha256 => ShaAlgorithm::Sha256,
            NormalizedAlgorithm::Sha384 => ShaAlgorithm::Sha384,
            NormalizedAlgorithm::Sha512 => ShaAlgorithm::Sha512,
            _ => {
                return Err(Error::NotSupported);
            },
        };
        Ok(sha_digest(algorithm, data))
    }
}

/// Digesting is a function of the algorithm and the data: equal data give equal digests.
pub proof fn lemma_digest_deterministic(n: NormalizedAlgorithm, x: Seq<u8>, y: Seq<u8>)
    requires
        x == y,
    ensures
        digest_result(n, x) == digest_result(n, y),
{
}

} // verus!
