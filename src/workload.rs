//! Reproducible payloads and workload shapes for exercising the hashers.
use vstd::prelude::*;
use crate::encoding::{le_bytes, lemma_le_bytes_len, to_le_bytes};

verus! {

/// Payload sizes used when measuring the hashers.
#[derive(Clone, Copy, Debug, PartialEq, Eq, Structural)]
pub enum Memory {
    /// 64 bytes.
    B64,
    /// 64 KiB.
    KiB64,
    /// 4 MiB, the offload threshold.
    MiB4,
}

impl Memory {
    pub open spec fn spec_size(self) -> nat {
        match self {
            Memory::B64 => 64,
            Memory::KiB64 => 65536,
            Memory::MiB4 => 4194304,
        }
    }

    /// The size in bytes.
    pub fn size(self) -> (r: usize)
        ensures
            r == self.spec_size(),
    {
        match self {
            Memory::B64 => 64,
            Memory::KiB64 => 65536,
            Memory::MiB4 => 4194304,
        }
    }
}

impl From<Memory> for usize {
    fn from(m: Memory) -> usize {
        m.size()
    }
}

impl vstd::std_specs::convert::FromSpecImpl<Memory> for usize {
    open spec fn obeys_from_spec() -> bool {
        true
    }

    open spec fn from_spec(m: Memory) -> usize {
        m.spec_size() as usize
    }
}

/// One step of the linear congruential generator behind `generate_bytes`.
pub open spec fn lcg_next(x: u64) -> u64 {
    x.wrapping_mul(6364136223846793005u64).wrapping_add(1)
}

/// The generator's state after `k` steps from `seed`.
pub open spec fn lcg_state(seed: u64, k: nat) -> u64
    decreases k,
{
    if k == 0 {
        seed.wrapping_add(1)
    } else {
        lcg_next(lcg_state(seed, (k - 1) as nat))
    }
}

/// The little-endian bytes of the first `k` states after the start.
pub open spec fn lcg_stream(seed: u64, k: nat) -> Seq<u8>
    decreases k,
{
    if k == 0 {
        seq![]
    } else {
        lcg_stream(seed, (k - 1) as nat) + le_bytes(lcg_state(seed, k) as nat, 8)
    }
}

/// The payload of `n` bytes generated from `seed`.
pub open spec fn generated(seed: u64, n: nat) -> Seq<u8> {
    lcg_stream(seed, (n + 7) / 8).take(n as int)
}

fn lcg_step(x: u64) -> (r: u64)
    ensures
        r == lcg_next(x),
{
    x.wrapping_mul(6364136223846793005u64).wrapping_add(1)
}

proof fn lemma_lcg_stream_len(seed: u64, k: nat)
    ensures
        lcg_stream(seed, k).len() == 8 * k,
    decreases k,
{
    if k > 0 {
        lemma_lcg_stream_len(seed, (k - 1) as nat);
        lemma_le_bytes_len(lcg_state(seed, k) as nat, 8);
    }
}

/// A reproducible payload of `output_size` bytes: the little-endian bytes of
/// successive generator states, cut to length.
pub fn generate_bytes(seed: u64, output_size: usize) -> (r: Vec<u8>)
    ensures
        r@ == generated(seed, output_size as nat),
        r@.len() == output_size,
{
    let mut state: u64 = seed.wrapping_add(1);
    let mut out: Vec<u8> = Vec::new();
    let ghost mut k: nat = 0;
    while out.len() < output_size
        invariant
            state == lcg_state(seed, k),
            out@ == lcg_stream(seed, k),
            out@.len() == 8 * k,
            8 * k < output_size + 8,
        decreases output_size + 8 - 8 * k,
    {
        let ghost before = out@;
        state = lcg_step(state);
        let bytes = to_le_bytes(state as u128, 8);
        proof {
            assert(state == lcg_state(seed, k + 1));
            lemma_le_bytes_len(state as nat, 8);
        }
        out.extend_from_slice(bytes.as_slice());
        proof {
            assert(out@ =~= before + bytes@);
            k = k + 1;
        }
    }
    proof {
        assert(k == (output_size + 7) / 8) by (nonlinear_arith)
            requires
                8 * k >= output_size,
                8 * k < output_size + 8,
        ;
    }
    out.truncate(output_size);
    out
}

/// One xorshift step.
pub open spec fn xorshift(x: u64) -> u64 {
    let a = x ^ (x << 13u64);
    let b = a ^ (a >> 7u64);
    b ^ (b << 17u64)
}

/// A value in `min..=max` drawn from the state after `x`.
pub open spec fn drawn(x: u64, min: u64, max: u64) -> int {
    min + (xorshift(x) as int) % (max - min + 1)
}

/// A small xorshift generator that shapes simulated workloads.
pub struct PseudoRNG {
    state: u64,
}

impl View for PseudoRNG {
    type V = u64;

    closed spec fn view(&self) -> u64 {
        self.state
    }
}

impl PseudoRNG {
    pub fn new(seed: u64) -> (r: Self)
        ensures
            r@ == seed.wrapping_add(1),
    {
        PseudoRNG { state: seed.wrapping_add(1) }
    }

    /// Advances the state and returns it.
    pub fn next_u64(&mut self) -> (r: u64)
        ensures
            r == xorshift(old(self)@),
            final(self)@ == r,
    {
        self.state = self.state ^ (self.state << 13u64);
        self.state = self.state ^ (self.state >> 7u64);
        self.state = self.state ^ (self.state << 17u64);
        self.state
    }

    /// A value in `min..=max`.
    pub fn range(&mut self, min: u64, max: u64) -> (r: u64)
        requires
            min <= max,
            max - min < u64::MAX,
        ensures
            r == drawn(old(self)@, min, max),
            min <= r <= max,
            final(self)@ == xorshift(old(self)@),
    {
        let x = self.next_u64();
        min + x % (max - min + 1)
    }
}

/// How many payloads arrive together: one in 40% of draws, 2 to 4 in 30%,
/// 5 to 12 in 20%, 13 to 32 in the rest.
pub fn random_batch_size(rng: &mut PseudoRNG) -> (r: usize)
    ensures
        ({
            let s1 = xorshift(old(rng)@);
            let d = s1 % 100;
            if d < 40 {
                r == 1 && final(rng)@ == s1
            } else {
                final(rng)@ == xorshift(s1) && r == if d < 70 {
                    drawn(s1, 2, 4)
                } else if d < 90 {
                    drawn(s1, 5, 12)
                } else {
                    drawn(s1, 13, 32)
                }
            }
        }),
{
    let d = rng.range(0, 99);
    if d < 40 {
        1
    } else if d < 70 {
        rng.range(2, 4) as usize
    } else if d < 90 {
        rng.range(5, 12) as usize
    } else {
        rng.range(13, 32) as usize
    }
}

/// A pause between batches in nanoseconds: none in 20% of draws, then
/// growing ranges up to two milliseconds.
pub fn random_delay(rng: &mut PseudoRNG) -> (r: u128)
    ensures
        ({
            let s1 = xorshift(old(rng)@);
            let d = s1 % 100;
            if d < 20 {
                r == 0 && final(rng)@ == s1
            } else {
                final(rng)@ == xorshift(s1) && r == if d < 50 {
                    drawn(s1, 1000, 50000)
                } else if d < 80 {
                    drawn(s1, 50000, 200000)
                } else if d < 95 {
                    drawn(s1, 200000, 500000)
                } else {
                    drawn(s1, 500000, 2000000)
                }
            }
        }),
{
    let d = rng.range(0, 99);
    let delay = if d < 20 {
        0
    } else if d < 50 {
        rng.range(1000, 50000)
    } else if d < 80 {
        rng.range(50000, 200000)
    } else if d < 95 {
        rng.range(200000, 500000)
    } else {
        rng.range(500000, 2000000)
    };
    delay as u128
}

/// A payload size in bytes: mostly small, with a tail reaching past the
/// offload threshold up to 8 MiB.
pub fn random_payload_size(rng: &mut PseudoRNG) -> (r: usize)
    ensures
        ({
            let s1 = xorshift(old(rng)@);
            let d = s1 % 100;
            final(rng)@ == xorshift(s1) && r == if d < 50 {
                drawn(s1, 32, 256)
            } else if d < 75 {
                drawn(s1, 256, 8192)
            } else if d < 90 {
                drawn(s1, 8192, 262144)
            } else if d < 98 {
                drawn(s1, 262144, 2097152)
            } else {
                drawn(s1, 2097152, 8388608)
            }
        }),
{
    let d = rng.range(0, 99);
    let size = if d < 50 {
        rng.range(32, 256)
    } else if d < 75 {
        rng.range(256, 8192)
    } else if d < 90 {
        rng.range(8192, 262144)
    } else if d < 98 {
        rng.range(262144, 2097152)
    } else {
        rng.range(2097152, 8388608)
    };
    size as usize
}

} // verus!
