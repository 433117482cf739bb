//! Utilities to make testing a little more sane: values to test with.

use crate::bin_types::{KitsuneAgent, KitsuneBasis, KitsuneBinType, KitsuneOpHash, KitsuneSpace};
use std::sync::Arc;
use vstd::prelude::*;

verus! {

/// The length in bytes of a randomized identifier.
pub const RANDOM_ID_LEN: usize = 36;

/// The length in bytes of the hash of operation data.
pub const OP_HASH_LEN: usize = 32;

/// Utility trait for test values.
pub trait TestVal: Sized {
    /// Create the test val.
    fn test_val() -> Self;
}

/// Overwrites `dest` with random bytes.
///
/// Trusted: calls `rand::Rng::fill` on the thread-local generator of
/// `rand`, which writes every byte of the slice and leaves its length as
/// it is. Nothing is claimed of the bytes.
#[verifier::external_body]
fn fill_random(dest: &mut Vec<u8>)
    ensures
        final(dest)@.len() == old(dest)@.len(),
{
    rand::Rng::fill(&mut rand::thread_rng(), &mut dest[..]);
}

/// A randomized identifier of `RANDOM_ID_LEN` bytes.
fn rand36<F: KitsuneBinType>() -> (id: Arc<F>)
    ensures
        id.bytes().len() == RANDOM_ID_LEN,
{
    let mut out: Vec<u8> = Vec::new();
    let mut i: usize = 0;
    while i < RANDOM_ID_LEN
        invariant
            i <= RANDOM_ID_LEN,
            out@.len() == i,
        decreases RANDOM_ID_LEN - i,
    {
        out.push(0);
        i += 1;
    }
    fill_random(&mut out);
    Arc::new(F::new(out))
}

impl TestVal for Arc<KitsuneSpace> {
    fn test_val() -> (id: Self)
        ensures
            id.bytes().len() == RANDOM_ID_LEN,
    {
        rand36()
    }
}

impl TestVal for Arc<KitsuneAgent> {
    fn test_val() -> (id: Self)
        ensures
            id.bytes().len() == RANDOM_ID_LEN,
    {
        rand36()
    }
}

impl TestVal for Arc<KitsuneBasis> {
    fn test_val() -> (id: Self)
        ensures
            id.bytes().len() == RANDOM_ID_LEN,
    {
        rand36()
    }
}

impl TestVal for Arc<KitsuneOpHash> {
    fn test_val() -> (id: Self)
        ensures
            id.bytes().len() == RANDOM_ID_LEN,
    {
        rand36()
    }
}

/// The BLAKE2b digest of `length` bytes of `data`, unkeyed.
pub uninterp spec fn blake2b_digest(length: nat, data: Seq<u8>) -> Seq<u8>;

/// Hashes `data` to `length` bytes.
///
/// Trusted: calls `blake2b_simd::Params::hash` with the hash length set
/// by `hash_length`, which refuses lengths outside 1 to 64, and copies the
/// bytes that `Hash::as_bytes` gives, of which there are `length`.
#[verifier::external_body]
fn blake2b(data: &[u8], length: usize) -> (digest: Vec<u8>)
    requires
        1 <= length <= 64,
    ensures
        digest@ == blake2b_digest(length as nat, data@),
        digest@.len() == length,
{
    blake2b_simd::Params::new().hash_length(length).hash(data).as_bytes().to_vec()
}

/// The hash of operation data: its BLAKE2b digest of `OP_HASH_LEN` bytes.
pub fn hash_op_data(data: &[u8]) -> (hash: Arc<KitsuneOpHash>)
    ensures
        hash.bytes() == blake2b_digest(OP_HASH_LEN as nat, data@),
        hash.bytes().len() == OP_HASH_LEN,
{
    Arc::new(KitsuneOpHash::new(blake2b(data, OP_HASH_LEN)))
}

} // verus!
