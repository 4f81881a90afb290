//! Little-endian digest bytes and lowercase hexadecimal rendering.
use vstd::prelude::*;

verus! {

/// The `n` low-order bytes of `v`, least significant first.
pub open spec fn le_bytes(v: nat, n: nat) -> Seq<u8>
    decreases n,
{
    if n == 0 {
        seq![]
    } else {
        seq![(v % 256) as u8] + le_bytes(v / 256, (n - 1) as nat)
    }
}

/// The lowercase hexadecimal character of a nibble: '0' (48) to '9', then
/// 'a' (97 = 87 + 10) to 'f'.
pub open spec fn hex_digit(d: u8) -> char {
    if d < 10 {
        ((48 + d) as u8) as char
    } else {
        ((87 + d) as u8) as char
    }
}

/// Two lowercase hex characters per byte, high nibble first, bytes in order.
pub open spec fn hex_of(b: Seq<u8>) -> Seq<char>
    decreases b.len(),
{
    if b.len() == 0 {
        seq![]
    } else {
        hex_of(b.drop_last()) + seq![hex_digit(b.last() / 16), hex_digit(b.last() % 16)]
    }
}

pub proof fn lemma_le_bytes_len(v: nat, n: nat)
    ensures
        le_bytes(v, n).len() == n,
    decreases n,
{
    if n > 0 {
        lemma_le_bytes_len(v / 256, (n - 1) as nat);
    }
}

pub proof fn lemma_hex_of_len(b: Seq<u8>)
    ensures
        hex_of(b).len() == 2 * b.len(),
    decreases b.len(),
{
    if b.len() > 0 {
        lemma_hex_of_len(b.drop_last());
    }
}

/// Relies on String::push: the character is appended at the end.
pub assume_specification[ String::push ](s: &mut String, ch: char)
    ensures
        final(s)@ == old(s)@.push(ch),
;

fn nibble_char(d: u8) -> (c: char)
    requires
        d < 16,
    ensures
        c == hex_digit(d),
{
    if d < 10 {
        (48 + d) as char
    } else {
        (87 + d) as char
    }
}

/// The `n` low-order bytes of `value`, least significant first.
pub fn to_le_bytes(value: u128, n: usize) -> (r: Vec<u8>)
    ensures
        r@ == le_bytes(value as nat, n as nat),
{
    let mut out: Vec<u8> = Vec::new();
    let mut rest: u128 = value;
    let mut i: usize = 0;
    while i < n
        invariant
            i <= n,
            out@ + le_bytes(rest as nat, (n - i) as nat) == le_bytes(value as nat, n as nat),
        decreases n - i,
    {
        let ghost before = out@;
        out.push((rest % 256) as u8);
        proof {
            let k = (n - i) as nat;
            assert(le_bytes(rest as nat, k) == seq![(rest % 256) as u8] + le_bytes(
                (rest / 256) as nat,
                (k - 1) as nat,
            ));
            assert(before + le_bytes(rest as nat, k) =~= out@ + le_bytes(
                (rest / 256) as nat,
                (k - 1) as nat,
            ));
        }
        rest = rest / 256;
        i = i + 1;
    }
    proof {
        assert(out@ + le_bytes(rest as nat, 0) =~= out@);
    }
    out
}

/// Lowercase hexadecimal rendering: two characters per byte, in byte order,
/// without prefix or separators.
pub fn encode(bytes: &[u8]) -> (r: String)
    ensures
        r@ == hex_of(bytes@),
        r@.len() == 2 * bytes@.len(),
{
    let mut out = String::new();
    let mut i: usize = 0;
    while i < bytes.len()
        invariant
            i <= bytes@.len(),
            out@ == hex_of(bytes@.subrange(0, i as int)),
        decreases bytes@.len() - i,
    {
        let b = bytes[i];
        out.push(nibble_char(b / 16));
        out.push(nibble_char(b % 16));
        proof {
            let next = bytes@.subrange(0, i + 1);
            assert(next.drop_last() =~= bytes@.subrange(0, i as int));
            assert(next.last() == b);
        }
        i = i + 1;
    }
    proof {
        assert(bytes@.subrange(0, bytes@.len() as int) =~= bytes@);
        lemma_hex_of_len(bytes@);
    }
    out
}

/// Hex of the little-endian bytes of a 32-bit hash.
pub fn hexdigest32(hash: u32) -> (r: String)
    ensures
        r@ == hex_of(le_bytes(hash as nat, 4)),
{
    let bytes = to_le_bytes(hash as u128, 4);
    encode(bytes.as_slice())
}

/// Hex of the little-endian bytes of a 64-bit hash.
pub fn hexdigest64(hash: u64) -> (r: String)
    ensures
        r@ == hex_of(le_bytes(hash as nat, 8)),
{
    let bytes = to_le_bytes(hash as u128, 8);
    encode(bytes.as_slice())
}

/// Hex of the little-endian bytes of a 128-bit hash.
pub fn hexdigest128(hash: u128) -> (r: String)
    ensures
        r@ == hex_of(le_bytes(hash as nat, 16)),
{
    let bytes = to_le_bytes(hash, 16);
    encode(bytes.as_slice())
}

} // verus!
