//! The incremental, hashlib-style digest object.
//!
//! The provider has no streaming state, so the object keeps every byte it has
//! been given and hashes the whole buffer again on each digest request.
use vstd::prelude::*;
use crate::encoding::{encode, hex_of, le_bytes, lemma_le_bytes_len, to_le_bytes};
use crate::buffer::to_owned_bytes;
use crate::provider::{hash_value, hash_with};
use crate::width::Width;

verus! {

/// The abstract state of a digest object: its width, its seed and every byte
/// it has been given.
pub struct HasherState {
    pub width: Width,
    pub seed: i64,
    pub data: Seq<u8>,
}

/// The state of a digest object made from `data`.
pub open spec fn initial(width: Width, seed: i64, data: Seq<u8>) -> HasherState {
    HasherState { width, seed, data }
}

/// The state after `more` has been appended.
pub open spec fn updated(st: HasherState, more: Seq<u8>) -> HasherState {
    HasherState { data: st.data + more, ..st }
}

/// The digest of a state: the little-endian bytes of the hash of its buffer.
pub open spec fn spec_digest(st: HasherState) -> Seq<u8> {
    le_bytes(hash_value(st.width, st.data, st.seed) as nat, st.width.spec_digest_size())
}

/// The bytes an optional argument stands for; nothing stands for no bytes.
pub open spec fn bytes_of(data: Option<&[u8]>) -> Seq<u8> {
    match data {
        Some(d) => d@,
        None => seq![],
    }
}

/// A digest object. Each one owns its buffer: a copy shares nothing with the
/// object it was copied from.
#[derive(Debug)]
pub struct GxHashLib {
    width: Width,
    seed: i64,
    buffer: Vec<u8>,
}

impl View for GxHashLib {
    type V = HasherState;

    closed spec fn view(&self) -> HasherState {
        HasherState { width: self.width, seed: self.seed, data: self.buffer@ }
    }
}

impl GxHashLib {
    /// A digest object of the given width holding `data`. The
    /// `usedforsecurity` flag is accepted for interface compatibility and
    /// changes nothing: this hash is never fit for security.
    pub fn new(width: Width, data: Option<&[u8]>, seed: i64, usedforsecurity: bool) -> (r: Self)
        ensures
            r@ == initial(width, seed, bytes_of(data)),
    {
        let buffer = match data {
            Some(d) => to_owned_bytes(d),
            None => Vec::new(),
        };
        proof {
            if data.is_none() {
                assert(buffer@ =~= bytes_of(data));
            }
        }
        GxHashLib { width, seed, buffer }
    }

    pub fn width(&self) -> (r: Width)
        ensures
            r == self@.width,
    {
        self.width
    }

    pub fn seed(&self) -> (r: i64)
        ensures
            r == self@.seed,
    {
        self.seed
    }

    /// The algorithm name: "gxhash32", "gxhash64" or "gxhash128".
    pub fn name(&self) -> (r: &'static str)
        ensures
            r@ == self@.width.spec_name(),
    {
        self.width.name()
    }

    /// Digest length in bytes: 4, 8 or 16.
    pub fn digest_size(&self) -> (r: usize)
        ensures
            r == self@.width.spec_digest_size(),
    {
        self.width.digest_size()
    }

    /// The algorithm has no natural block granularity.
    pub fn block_size(&self) -> (r: usize)
        ensures
            r == 1,
    {
        1
    }

    /// The hash of everything given so far, as little-endian bytes. The
    /// buffer is left as it is.
    pub fn digest(&self) -> (r: Vec<u8>)
        ensures
            r@ == spec_digest(self@),
            r@.len() == self@.width.spec_digest_size(),
    {
        let value = hash_with(self.width, self.buffer.as_slice(), self.seed);
        proof {
            lemma_digest_width(self@);
        }
        to_le_bytes(value, self.width.digest_size())
    }

    /// The digest in lowercase hexadecimal.
    pub fn hexdigest(&self) -> (r: String)
        ensures
            r@ == hex_of(spec_digest(self@)),
            r@.len() == 2 * self@.width.spec_digest_size(),
    {
        let bytes = self.digest();
        encode(bytes.as_slice())
    }

    /// Appends `data` to the buffer.
    pub fn update(&mut self, data: &[u8])
        ensures
            final(self)@ == updated(old(self)@, data@),
    {
        self.buffer.extend_from_slice(data);
        proof {
            assert(self.buffer@ =~= old(self)@.data + data@);
        }
    }

    /// An independent object with the same width, seed and bytes.
    pub fn copy(&self) -> (r: Self)
        ensures
            r@ == self@,
    {
        GxHashLib { width: self.width, seed: self.seed, buffer: to_owned_bytes(self.buffer.as_slice()) }
    }
}

/// A 32-bit digest object holding `data` (none: no bytes).
pub fn gxhash32(data: Option<&[u8]>, seed: i64, usedforsecurity: bool) -> (r: GxHashLib)
    ensures
        r@ == initial(Width::W32, seed, bytes_of(data)),
{
    GxHashLib::new(Width::W32, data, seed, usedforsecurity)
}

/// A 64-bit digest object holding `data` (none: no bytes).
pub fn gxhash64(data: Option<&[u8]>, seed: i64, usedforsecurity: bool) -> (r: GxHashLib)
    ensures
        r@ == initial(Width::W64, seed, bytes_of(data)),
{
    GxHashLib::new(Width::W64, data, seed, usedforsecurity)
}

/// A 128-bit digest object holding `data` (none: no bytes).
pub fn gxhash128(data: Option<&[u8]>, seed: i64, usedforsecurity: bool) -> (r: GxHashLib)
    ensures
        r@ == initial(Width::W128, seed, bytes_of(data)),
{
    GxHashLib::new(Width::W128, data, seed, usedforsecurity)
}

/// Updating with `x` and then with `y` gives the digest of an object made
/// from `x + y` in one call.
pub proof fn lemma_update_concat(width: Width, seed: i64, x: Seq<u8>, y: Seq<u8>)
    ensures
        spec_digest(updated(updated(initial(width, seed, seq![]), x), y)) == spec_digest(
            initial(width, seed, x + y),
        ),
{
    assert(updated(updated(initial(width, seed, seq![]), x), y) == initial(width, seed, x + y))
        by {
        assert(seq![] + x + y =~= x + y);
    }
}

/// A digest is as long as the width says, and that is 4, 8 or 16 bytes.
pub proof fn lemma_digest_width(st: HasherState)
    ensures
        spec_digest(st).len() == st.width.spec_digest_size(),
        st.width.spec_digest_size() == 4 || st.width.spec_digest_size() == 8
            || st.width.spec_digest_size() == 16,
        st.width == Width::W32 ==> spec_digest(st).len() == 4,
        st.width == Width::W64 ==> spec_digest(st).len() == 8,
        st.width == Width::W128 ==> spec_digest(st).len() == 16,
{
    lemma_le_bytes_len(hash_value(st.width, st.data, st.seed) as nat, st.width.spec_digest_size());
}

} // verus!
