//! Seeded hashers with a synchronous and an asynchronous entry point.
//!
//! `hash` always runs inline. `hash_async` is split in two: `plan_async`
//! decides, from the payload size alone, whether to answer at once or to hand
//! a job to a worker pool, and `finish_async` turns what the pool gave back
//! into the caller's result. Whoever drives the pool runs `HashJob::run` in
//! between. A job owns a copy of the bytes, so nothing borrowed crosses the
//! suspension point.
use vstd::prelude::*;
use crate::buffer::to_owned_bytes;
use crate::provider::{
    gxhash128_of, gxhash32_of, gxhash64_of, hash128, hash32, hash64, hash_value, hash_with,
};
use crate::width::Width;

verus! {

/// Payloads of at least this many bytes (4 MiB) are hashed on the worker
/// pool; smaller ones inline.
pub const OFFLOAD_THRESHOLD: usize = 4194304;

/// What an asynchronous hash is to do, as a value.
pub enum AsyncPlan {
    /// Answer at once with this value.
    Inline(u128),
    /// Hash these bytes on the worker pool.
    Offload { width: Width, seed: i64, bytes: Seq<u8> },
}

/// The plan for hashing `bytes` asynchronously.
pub open spec fn async_plan(width: Width, bytes: Seq<u8>, seed: i64) -> AsyncPlan {
    if bytes.len() < OFFLOAD_THRESHOLD {
        AsyncPlan::Inline(hash_value(width, bytes, seed))
    } else {
        AsyncPlan::Offload { width, seed, bytes }
    }
}

/// The value a plan resolves to once carried out.
pub open spec fn plan_result(p: AsyncPlan) -> u128 {
    match p {
        AsyncPlan::Inline(v) => v,
        AsyncPlan::Offload { width, seed, bytes } => hash_value(width, bytes, seed),
    }
}

/// Hashing asynchronously resolves to what hashing synchronously returns, on
/// either side of the offload threshold.
pub proof fn lemma_async_matches_sync(width: Width, bytes: Seq<u8>, seed: i64)
    ensures
        plan_result(async_plan(width, bytes, seed)) == hash_value(width, bytes, seed),
{
}

/// A hash computation to run off the caller's thread. It owns its bytes.
pub struct HashJob {
    width: Width,
    seed: i64,
    bytes: Vec<u8>,
}

impl HashJob {
    pub closed spec fn spec_plan(&self) -> AsyncPlan {
        AsyncPlan::Offload { width: self.width, seed: self.seed, bytes: self.bytes@ }
    }

    /// Runs the computation; meant for a worker thread.
    pub fn run(&self) -> (r: u128)
        ensures
            r == plan_result(self.spec_plan()),
    {
        hash_with(self.width, self.bytes.as_slice(), self.seed)
    }
}

/// The first half of an asynchronous hash.
pub enum AsyncStep {
    /// The value is known already.
    Ready(u128),
    /// Run this job on the worker pool, then call `finish_async`.
    Offload(HashJob),
}

impl AsyncStep {
    pub open spec fn spec_plan(&self) -> AsyncPlan {
        match self {
            AsyncStep::Ready(v) => AsyncPlan::Inline(*v),
            AsyncStep::Offload(job) => job.spec_plan(),
        }
    }
}

/// A background job that could not be joined: the pool was shut down or the
/// job panicked. Carries the description of the failure.
#[derive(Debug)]
pub struct GxHashAsyncError {
    pub message: String,
}

/// Inline below the threshold, otherwise an owned copy of the bytes for the
/// pool.
pub fn plan_async(width: Width, bytes: &[u8], seed: i64) -> (r: AsyncStep)
    ensures
        r.spec_plan() == async_plan(width, bytes@, seed),
{
    if bytes.len() < OFFLOAD_THRESHOLD {
        AsyncStep::Ready(hash_with(width, bytes, seed))
    } else {
        AsyncStep::Offload(HashJob { width, seed, bytes: to_owned_bytes(bytes) })
    }
}

/// The seeded-hasher protocol, generic in the hash type it returns.
pub trait Hasher {
    /// The hash type: `u32`, `u64` or `u128` for the three widths.
    type Output;

    /// The hash of `data` under this hasher's seed.
    spec fn spec_hash(&self, data: Seq<u8>) -> Self::Output;

    /// The hash of `data`, computed on the calling thread.
    fn hash(&self, data: &[u8]) -> (r: Self::Output)
        ensures
            r == self.spec_hash(data@),
    ;
}

/// A 32-bit seeded hasher.
pub struct GxHash32 {
    seed: i64,
}

/// A 64-bit seeded hasher.
pub struct GxHash64 {
    seed: i64,
}

/// A 128-bit seeded hasher.
pub struct GxHash128 {
    seed: i64,
}

impl Hasher for GxHash32 {
    type Output = u32;

    open spec fn spec_hash(&self, data: Seq<u8>) -> u32 {
        gxhash32_of(data, self@)
    }

    fn hash(&self, data: &[u8]) -> (r: u32) {
        hash32(data, self.seed)
    }
}

impl View for GxHash32 {
    type V = i64;

    closed spec fn view(&self) -> i64 {
        self.seed
    }
}

impl Hasher for GxHash64 {
    type Output = u64;

    open spec fn spec_hash(&self, data: Seq<u8>) -> u64 {
        gxhash64_of(data, self@)
    }

    fn hash(&self, data: &[u8]) -> (r: u64) {
        hash64(data, self.seed)
    }
}

impl View for GxHash64 {
    type V = i64;

    closed spec fn view(&self) -> i64 {
        self.seed
    }
}

impl Hasher for GxHash128 {
    type Output = u128;

    open spec fn spec_hash(&self, data: Seq<u8>) -> u128 {
        gxhash128_of(data, self@)
    }

    fn hash(&self, data: &[u8]) -> (r: u128) {
        hash128(data, self.seed)
    }
}

impl View for GxHash128 {
    type V = i64;

    closed spec fn view(&self) -> i64 {
        self.seed
    }
}

impl GxHash32 {
    /// A hasher whose every call uses `seed`.
    pub fn new(seed: i64) -> (r: Self)
        ensures
            r@ == seed,
    {
        GxHash32 { seed }
    }

    pub fn seed(&self) -> (r: i64)
        ensures
            r == self@,
    {
        self.seed
    }

    /// The first half of `hash_async`.
    pub fn plan_async(&self, data: &[u8]) -> (r: AsyncStep)
        ensures
            r.spec_plan() == async_plan(Width::W32, data@, self@),
    {
        plan_async(Width::W32, data, self.seed)
    }

    /// The second half of `hash_async`: the value a step resolved to, or the
    /// description of a failed join.
    pub fn finish_async(outcome: Result<u128, String>) -> (r: Result<u32, GxHashAsyncError>)
        ensures
            match outcome {
                Ok(v) => r is Ok && r->Ok_0 == v as u32,
                Err(m) => r is Err && r->Err_0.message@ == m@,
            },
    {
        match outcome {
            Ok(v) => Ok(v as u32),
            Err(message) => Err(GxHashAsyncError { message }),
        }
    }
}

impl GxHash64 {
    /// A hasher whose every call uses `seed`.
    pub fn new(seed: i64) -> (r: Self)
        ensures
            r@ == seed,
    {
        GxHash64 { seed }
    }

    pub fn seed(&self) -> (r: i64)
        ensures
            r == self@,
    {
        self.seed
    }

    /// The first half of `hash_async`.
    pub fn plan_async(&self, data: &[u8]) -> (r: AsyncStep)
        ensures
            r.spec_plan() == async_plan(Width::W64, data@, self@),
    {
        plan_async(Width::W64, data, self.seed)
    }

    /// The second half of `hash_async`: the value a step resolved to, or the
    /// description of a failed join.
    pub fn finish_async(outcome: Result<u128, String>) -> (r: Result<u64, GxHashAsyncError>)
        ensures
            match outcome {
                Ok(v) => r is Ok && r->Ok_0 == v as u64,
                Err(m) => r is Err && r->Err_0.message@ == m@,
            },
    {
        match outcome {
            Ok(v) => Ok(v as u64),
            Err(message) => Err(GxHashAsyncError { message }),
        }
    }
}

impl GxHash128 {
    /// A hasher whose every call uses `seed`.
    pub fn new(seed: i64) -> (r: Self)
        ensures
            r@ == seed,
    {
        GxHash128 { seed }
    }

    pub fn seed(&self) -> (r: i64)
        ensures
            r == self@,
    {
        self.seed
    }

    /// The first half of `hash_async`.
    pub fn plan_async(&self, data: &[u8]) -> (r: AsyncStep)
        ensures
            r.spec_plan() == async_plan(Width::W128, data@, self@),
    {
        plan_async(Width::W128, data, self.seed)
    }

    /// The second half of `hash_async`: the value a step resolved to, or the
    /// description of a failed join.
    pub fn finish_async(outcome: Result<u128, String>) -> (r: Result<u128, GxHashAsyncError>)
        ensures
            match outcome {
                Ok(v) => r is Ok && r->Ok_0 == v,
                Err(m) => r is Err && r->Err_0.message@ == m@,
            },
    {
        match outcome {
            Ok(v) => Ok(v),
            Err(message) => Err(GxHashAsyncError { message }),
        }
    }
}

/// For each width, the narrowed result of an asynchronous hash is the
/// synchronous hash.
pub proof fn lemma_async_value_per_width(bytes: Seq<u8>, seed: i64)
    ensures
        plan_result(async_plan(Width::W32, bytes, seed)) as u32 == gxhash32_of(bytes, seed),
        plan_result(async_plan(Width::W64, bytes, seed)) as u64 == gxhash64_of(bytes, seed),
        plan_result(async_plan(Width::W128, bytes, seed)) == gxhash128_of(bytes, seed),
{
}

} // verus!
