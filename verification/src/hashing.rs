//! Cryptographic hash functions that contracts may call, computed by `sp-io`.
use vstd::prelude::*;

verus! {

/// What `sp_io::hashing::sha2_256` returns for `data`.
pub uninterp spec fn sha2_256_of(data: Seq<u8>) -> Seq<u8>;

/// What `sp_io::hashing::keccak_256` returns for `data`.
pub uninterp spec fn keccak_256_of(data: Seq<u8>) -> Seq<u8>;

/// What `sp_io::hashing::blake2_256` returns for `data`.
pub uninterp spec fn blake2_256_of(data: Seq<u8>) -> Seq<u8>;

/// What `sp_io::hashing::blake2_128` returns for `data`.
pub uninterp spec fn blake2_128_of(data: Seq<u8>) -> Seq<u8>;

/// `sp_io::hashing::sha2_256`: the 32-byte SHA2-256 digest of `data`.
#[verifier::external_body]
fn sha2_256(data: &[u8]) -> (r: Vec<u8>)
    ensures
        r@ == sha2_256_of(data@),
        r@.len() == 32,
{
    sp_io::hashing::sha2_256(data).to_vec()
}

/// `sp_io::hashing::keccak_256`: the 32-byte Keccak-256 digest of `data`.
#[verifier::external_body]
fn keccak_256(data: &[u8]) -> (r: Vec<u8>)
    ensures
        r@ == keccak_256_of(data@),
        r@.len() == 32,
{
    sp_io::hashing::keccak_256(data).to_vec()
}

/// `sp_io::hashing::blake2_256`: the 32-byte BLAKE2b-256 digest of `data`.
#[verifier::external_body]
fn blake2_256(data: &[u8]) -> (r: Vec<u8>)
    ensures
        r@ == blake2_256_of(data@),
        r@.len() == 32,
{
    sp_io::hashing::blake2_256(data).to_vec()
}

/// `sp_io::hashing::blake2_128`: the 16-byte BLAKE2b-128 digest of `data`.
#[verifier::external_body]
fn blake2_128(data: &[u8]) -> (r: Vec<u8>)
    ensures
        r@ == blake2_128_of(data@),
        r@.len() == 16,
{
    sp_io::hashing::blake2_128(data).to_vec()
}

/// The hash functions offered to contracts.
#[derive(Clone, Copy, PartialEq, Eq, Structural, Debug)]
pub enum HashFunction {
    Sha2_256,
    Keccak256,
    Blake2_256,
    Blake2_128,
}

/// The digest of `data` under `f`.
pub open spec fn digest_of(f: HashFunction, data: Seq<u8>) -> Seq<u8> {
    match f {
        HashFunction::Sha2_256 => sha2_256_of(data),
        HashFunction::Keccak256 => keccak_256_of(data),
        HashFunction::Blake2_256 => blake2_256_of(data),
        HashFunction::Blake2_128 => blake2_128_of(data),
    }
}

/// The length in bytes of a digest under `f`.
pub open spec fn digest_len(f: HashFunction) -> nat {
    match f {
        HashFunction::Blake2_128 => 16,
        _ => 32,
    }
}

impl HashFunction {
    /// The digest of `data`.
    pub fn hash(&self, data: &[u8]) -> (r: Vec<u8>)
        ensures
            r@ == digest_of(*self, data@),
            r@.len() == digest_len(*self),
    {
        match self {
            HashFunction::Sha2_256 => sha2_256(data),
            HashFunction::Keccak256 => keccak_256(data),
            HashFunction::Blake2_256 => blake2_256(data),
            HashFunction::Blake2_128 => blake2_128(data),
        }
    }
}

} // verus!
