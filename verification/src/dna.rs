//! Deterministic derivation: hash the identity, truncate, reduce each byte.

use vstd::prelude::*;
use sha3::{Digest, Keccak256};
use crate::error::ContractError;

verus! {

/// Width of the Keccak-256 digest in bytes.
pub const DIGEST_WIDTH: usize = 32;

/// The Keccak-256 digest of the UTF-8 bytes of a string. The digest is a
/// pure function of the string, so naming it keeps the derivation's
/// determinism provable without restating the hash.
pub uninterp spec fn keccak256_of(s: Seq<char>) -> Seq<u8>;

/// Relies on sha3's `Keccak256`: a digest of exactly 32 bytes
/// (`OutputSize = U32`), determined by the hashed bytes alone.
#[verifier::external_body]
fn keccak256(value: &String) -> (r: Vec<u8>)
    ensures
        r@ == keccak256_of(value@),
        r@.len() == DIGEST_WIDTH,
{
    let mut hasher = Keccak256::new();
    hasher.update(value.as_bytes());
    hasher.finalize().to_vec()
}

/// The derived byte data for an identity: the first `length` bytes of the
/// identity's digest, each reduced modulo `modulus`.
pub open spec fn dna_of(identity: Seq<char>, length: int, modulus: u8) -> Seq<u8> {
    Seq::new(length as nat, |i: int| (keccak256_of(identity)[i] % modulus) as u8)
}

/// Derives the per-identity byte data: digest, truncate to `dna_length`,
/// reduce each byte modulo `dna_modulus`. Out-of-range parameters — a length
/// beyond the digest width, or a zero modulus — are rejected explicitly.
pub fn cyborg_dna_generator(value: &String, dna_length: usize, dna_modulus: u8) -> (r: Result<
    Vec<u8>,
    ContractError,
>)
    ensures
        dna_length <= DIGEST_WIDTH && dna_modulus >= 1 ==> (r matches Ok(dna) && dna@ == dna_of(
            value@,
            dna_length as int,
            dna_modulus,
        )),
        dna_length > DIGEST_WIDTH || dna_modulus == 0 ==> (r matches Err(e)
            && e == ContractError::DnaOutOfRange),
{
    if dna_length > DIGEST_WIDTH || dna_modulus == 0 {
        return Result::Err(ContractError::DnaOutOfRange);
    }
    let digest = keccak256(value);
    let mut truncated: Vec<u8> = Vec::new();
    let mut i: usize = 0;
    while i < dna_length
        invariant
            i <= dna_length,
            dna_length <= digest@.len(),
            dna_modulus >= 1,
            digest@ == keccak256_of(value@),
            truncated@ =~= dna_of(value@, dna_length as int, dna_modulus).take(i as int),
        decreases dna_length - i,
    {
        truncated.push(digest[i] % dna_modulus);
        proof {
            assert(truncated@ =~= dna_of(value@, dna_length as int, dna_modulus).take(
                i as int + 1,
            ));
        }
        i = i + 1;
    }
    proof {
        assert(truncated@ =~= dna_of(value@, dna_length as int, dna_modulus));
    }
    Result::Ok(truncated)
}

/// The derivation is a pure function of its inputs: equal identities and
/// parameters give equal output, the output length always equals `length`,
/// and every output byte lies below `modulus`.
pub proof fn lemma_dna_deterministic(
    id1: Seq<char>,
    id2: Seq<char>,
    length: int,
    modulus: u8,
)
    requires
        id1 == id2,
        0 <= length,
        modulus >= 1,
    ensures
        dna_of(id1, length, modulus) == dna_of(id2, length, modulus),
        dna_of(id1, length, modulus).len() == length,
        forall|i: int| 0 <= i < length ==> dna_of(id1, length, modulus)[i] < modulus,
{
}

} // verus!
