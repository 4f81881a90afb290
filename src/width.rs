//! The three output widths of the hash provider.
use vstd::prelude::*;

verus! {

/// An output width: fixes the provider variant, the digest length and the
/// algorithm name.
#[derive(Clone, Copy, Debug, PartialEq, Eq, Structural)]
pub enum Width {
    W32,
    W64,
    W128,
}

impl Width {
    /// Digest length in bytes.
    pub open spec fn spec_digest_size(self) -> nat {
        match self {
            Width::W32 => 4,
            Width::W64 => 8,
            Width::W128 => 16,
        }
    }

    /// The algorithm name under which the registry knows this width.
    pub open spec fn spec_name(self) -> Seq<char> {
        match self {
            Width::W32 => "gxhash32"@,
            Width::W64 => "gxhash64"@,
            Width::W128 => "gxhash128"@,
        }
    }

    pub fn digest_size(&self) -> (r: usize)
        ensures
            r == self.spec_digest_size(),
    {
        match self {
            Width::W32 => 4,
            Width::W64 => 8,
            Width::W128 => 16,
        }
    }

    pub fn name(&self) -> (r: &'static str)
        ensures
            r@ == self.spec_name(),
    {
        match self {
            Width::W32 => "gxhash32",
            Width::W64 => "gxhash64",
            Width::W128 => "gxhash128",
        }
    }
}

} // verus!
