//! Construction of digest objects by algorithm name, and draining a stream of
//! chunks into one.
use vstd::prelude::*;
use vstd::string::{StrSliceExecFns, StringExecFns};
use crate::hashlib::{GxHashLib, HasherState, bytes_of, initial, updated};
use crate::width::Width;

verus! {

/// The width that an algorithm name stands for, if any.
pub open spec fn width_named(name: Seq<char>) -> Option<Width> {
    if name == Width::W32.spec_name() {
        Some(Width::W32)
    } else if name == Width::W64.spec_name() {
        Some(Width::W64)
    } else if name == Width::W128.spec_name() {
        Some(Width::W128)
    } else {
        None
    }
}

/// An algorithm name that the registry does not know.
#[derive(Debug)]
pub struct UnsupportedHashType {
    pub name: String,
}

impl UnsupportedHashType {
    /// A readable message that names the offending string.
    pub fn message(&self) -> (r: String)
        ensures
            r@ == "unsupported hash type "@ + self.name@,
    {
        let prefix = String::from_str("unsupported hash type ");
        prefix.concat(self.name.as_str())
    }
}

/// Whether two strings hold the same characters.
fn same_text(a: &str, b: &str) -> (r: bool)
    ensures
        r == (a@ == b@),
{
    let n = a.unicode_len();
    if n != b.unicode_len() {
        return false;
    }
    let mut i: usize = 0;
    while i < n
        invariant
            n == a@.len(),
            n == b@.len(),
            i <= n,
            forall|j: int| 0 <= j < i ==> a@[j] == b@[j],
        decreases n - i,
    {
        if a.get_char(i) != b.get_char(i) {
            return false;
        }
        i = i + 1;
    }
    proof {
        assert(a@ =~= b@);
    }
    true
}

/// Looks an algorithm name up in the fixed table of widths.
pub fn width_for_name(name: &str) -> (r: Option<Width>)
    ensures
        r == width_named(name@),
{
    if same_text(name, Width::W32.name()) {
        Some(Width::W32)
    } else if same_text(name, Width::W64.name()) {
        Some(Width::W64)
    } else if same_text(name, Width::W128.name()) {
        Some(Width::W128)
    } else {
        None
    }
}

/// A digest object for the named algorithm, holding `data` (none: no bytes).
/// An unknown name is an error that carries the name.
pub fn new(name: &str, data: Option<&[u8]>, seed: i64) -> (r: Result<GxHashLib, UnsupportedHashType>)
    ensures
        match width_named(name@) {
            Some(w) => r is Ok && r->Ok_0@ == initial(w, seed, bytes_of(data)),
            None => r is Err && r->Err_0.name@ == name@,
        },
{
    match width_for_name(name) {
        Some(w) => Ok(GxHashLib::new(w, data, seed, false)),
        None => Err(UnsupportedHashType { name: name.to_owned() }),
    }
}

/// The size of the chunks in which a stream is read into a digest object.
pub const FILE_CHUNK_SIZE: usize = 262144;

/// The state after each chunk in turn has been appended.
pub open spec fn fed(st: HasherState, chunks: Seq<Seq<u8>>) -> HasherState
    decreases chunks.len(),
{
    if chunks.len() == 0 {
        st
    } else {
        fed(updated(st, chunks.first()), chunks.drop_first())
    }
}

/// Draining a stream chunk by chunk amounts to one update with everything
/// that was read, however the stream was cut into chunks.
pub proof fn lemma_fed_is_concatenation(st: HasherState, chunks: Seq<Seq<u8>>)
    ensures
        fed(st, chunks) == updated(st, chunks.flatten()),
    decreases chunks.len(),
{
    if chunks.len() == 0 {
        assert(st.data + chunks.flatten() =~= st.data);
    } else {
        lemma_fed_is_concatenation(updated(st, chunks.first()), chunks.drop_first());
        assert(st.data + chunks.first() + chunks.drop_first().flatten() =~= st.data
            + chunks.flatten());
    }
}

/// A stream being drained into a digest object: the caller reads a chunk of
/// at most `FILE_CHUNK_SIZE` bytes from the stream's current position and
/// feeds it, until a read comes back empty.
#[derive(Debug)]
pub struct FileDigest {
    hasher: GxHashLib,
}

impl View for FileDigest {
    type V = HasherState;

    closed spec fn view(&self) -> HasherState {
        self.hasher@
    }
}

impl FileDigest {
    /// Drains into a digest object that the caller has made.
    pub fn from_hasher(hasher: GxHashLib) -> (r: Self)
        ensures
            r@ == hasher@,
    {
        FileDigest { hasher }
    }

    /// Drains into a fresh digest object of the named algorithm.
    pub fn for_name(name: &str, seed: i64) -> (r: Result<Self, UnsupportedHashType>)
        ensures
            match width_named(name@) {
                Some(w) => r is Ok && r->Ok_0@ == initial(w, seed, seq![]),
                None => r is Err && r->Err_0.name@ == name@,
            },
    {
        match new(name, None, seed) {
            Ok(h) => Ok(FileDigest { hasher: h }),
            Err(e) => Err(e),
        }
    }

    /// Appends one chunk read from the stream. Returns whether to read on:
    /// an empty chunk marks the end of the stream.
    pub fn feed(&mut self, chunk: &[u8]) -> (more: bool)
        ensures
            more == (chunk@.len() > 0),
            final(self)@ == updated(old(self)@, chunk@),
    {
        self.hasher.update(chunk);
        chunk.len() > 0
    }

    /// The digest object holding everything that was fed.
    pub fn finish(self) -> (r: GxHashLib)
        ensures
            r@ == self@,
    {
        self.hasher
    }
}

} // verus!
