//! Owned copies of borrowed bytes.
//!
//! A borrowed view of caller-owned bytes is only good for the call that
//! received it. Anything that has to outlive that call (a digest object's
//! buffer, a job handed to a worker pool) holds an owned copy instead.
use vstd::prelude::*;

verus! {

/// An owned copy of `data`, byte for byte.
pub fn to_owned_bytes(data: &[u8]) -> (r: Vec<u8>)
    ensures
        r@ == data@,
{
    let mut out: Vec<u8> = Vec::with_capacity(data.len());
    let mut i: usize = 0;
    while i < data.len()
        invariant
            i <= data@.len(),
            out@ == data@.subrange(0, i as int),
        decreases data@.len() - i,
    {
        out.push(data[i]);
        proof {
            assert(out@ =~= data@.subrange(0, i + 1));
        }
        i = i + 1;
    }
    proof {
        assert(data@.subrange(0, data@.len() as int) =~= data@);
    }
    out
}

} // verus!
