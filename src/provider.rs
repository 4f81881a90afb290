//! The gxhash functions, one per width.
use vstd::prelude::*;
use crate::width::Width;

verus! {

/// What `gxhash::gxhash32` returns for these bytes and this seed.
pub uninterp spec fn gxhash32_of(bytes: Seq<u8>, seed: i64) -> u32;

/// What `gxhash::gxhash64` returns for these bytes and this seed.
pub uninterp spec fn gxhash64_of(bytes: Seq<u8>, seed: i64) -> u64;

/// What `gxhash::gxhash128` returns for these bytes and this seed.
pub uninterp spec fn gxhash128_of(bytes: Seq<u8>, seed: i64) -> u128;

/// Relies on gxhash::gxhash32: a pure function of the bytes and the seed,
/// the same on every supported platform.
#[verifier::external_body]
fn provider_gxhash32(bytes: &[u8], seed: i64) -> (r: u32)
    ensures
        r == gxhash32_of(bytes@, seed),
{
    gxhash::gxhash32(bytes, seed)
}

/// Relies on gxhash::gxhash64: a pure function of the bytes and the seed,
/// the same on every supported platform.
#[verifier::external_body]
fn provider_gxhash64(bytes: &[u8], seed: i64) -> (r: u64)
    ensures
        r == gxhash64_of(bytes@, seed),
{
    gxhash::gxhash64(bytes, seed)
}

/// Relies on gxhash::gxhash128: a pure function of the bytes and the seed,
/// the same on every supported platform.
#[verifier::external_body]
fn provider_gxhash128(bytes: &[u8], seed: i64) -> (r: u128)
    ensures
        r == gxhash128_of(bytes@, seed),
{
    gxhash::gxhash128(bytes, seed)
}

/// The hash of `bytes` under `seed` at width `w`, widened to 128 bits.
pub open spec fn hash_value(w: Width, bytes: Seq<u8>, seed: i64) -> u128 {
    match w {
        Width::W32 => gxhash32_of(bytes, seed) as u128,
        Width::W64 => gxhash64_of(bytes, seed) as u128,
        Width::W128 => gxhash128_of(bytes, seed),
    }
}

pub fn hash32(bytes: &[u8], seed: i64) -> (r: u32)
    ensures
        r == gxhash32_of(bytes@, seed),
{
    provider_gxhash32(bytes, seed)
}

pub fn hash64(bytes: &[u8], seed: i64) -> (r: u64)
    ensures
        r == gxhash64_of(bytes@, seed),
{
    provider_gxhash64(bytes, seed)
}

pub fn hash128(bytes: &[u8], seed: i64) -> (r: u128)
    ensures
        r == gxhash128_of(bytes@, seed),
{
    provider_gxhash128(bytes, seed)
}

/// Hashes at the given width; the value is the provider's, widened.
pub fn hash_with(w: Width, bytes: &[u8], seed: i64) -> (r: u128)
    ensures
        r == hash_value(w, bytes@, seed),
{
    match w {
        Width::W32 => provider_gxhash32(bytes, seed) as u128,
        Width::W64 => provider_gxhash64(bytes, seed) as u128,
        Width::W128 => provider_gxhash128(bytes, seed),
    }
}

/// Equal inputs give equal hashes, at every width.
pub proof fn lemma_hash_deterministic(w: Width, b1: Seq<u8>, b2: Seq<u8>, seed: i64)
    requires
        b1 == b2,
    ensures
        hash_value(w, b1, seed) == hash_value(w, b2, seed),
{
}

} // verus!
