//! Per-build ABI tag: a content hash of this NIF library's own binary.
//!
//! The tag is appended to default resource-type names so that two
//! independently compiled builds register distinct types and never take each
//! other's resources over across a hot upgrade. A byte-identical reload of the
//! same library hashes to the same tag, so self-takeover still works. Locating
//! and reading the binary, and caching the tag for the life of the load, are
//! the host's part; the hashing and the choice of value are here.
use vstd::prelude::*;

use std::collections::hash_map::DefaultHasher;
use std::hash::Hasher;
use vstd::bytes::spec_u64_to_le_bytes;
use vstd::std_specs::hash::DefaultHasherAdditionalSpecFns;

verus! {

/// The tag of a build whose binary holds `image`: the `DefaultHasher` digest
/// of the bytes written in one piece. A binary always hashes itself with its
/// own compiled-in algorithm, and a tag is only ever compared to itself.
pub open spec fn image_tag(image: Seq<u8>) -> u64 {
    DefaultHasher::spec_finish(seq![image])
}

/// The content hash of a build's binary image.
pub fn content_tag(image: &[u8]) -> (r: u64)
    ensures
        r == image_tag(image@),
{
    let mut h = DefaultHasher::new();
    h.write(image);
    h.finish()
}

/// `Hasher::write_u64` on a `DefaultHasher`: appends one eight-byte write,
/// the value's native-endian bytes (`to_ne_bytes`): its little-endian bytes,
/// or those reversed on a big-endian machine. Which of the two is left open.
#[verifier::external_body]
fn hasher_write_u64(h: &mut DefaultHasher, v: u64)
    ensures
        final(h)@.len() == old(h)@.len() + 1,
        final(h)@.subrange(0, old(h)@.len() as int) == old(h)@,
        final(h)@.last().len() == 8,
        final(h)@.last() == spec_u64_to_le_bytes(v) || final(h)@.last()
            == spec_u64_to_le_bytes(v).reverse(),
{
    h.write_u64(v);
}

/// The per-load value used when the binary cannot be located or read: a
/// digest of the wall-clock time and an address fixed for this load, each
/// written as its eight native-endian bytes. Being
/// distinct from any build's content hash, it degrades to "never take over"
/// rather than risking a false takeover.
pub fn fallback(nanos: u64, address: u64) -> (r: u64)
    ensures
        exists|a: Seq<u8>, b: Seq<u8>|
            {
                &&& a.len() == 8
                &&& b.len() == 8
                &&& (a == spec_u64_to_le_bytes(nanos) || a == spec_u64_to_le_bytes(nanos).reverse())
                &&& (b == spec_u64_to_le_bytes(address) || b == spec_u64_to_le_bytes(
                    address,
                ).reverse())
                &&& r == DefaultHasher::spec_finish(seq![a, b])
            },
{
    let mut h = DefaultHasher::new();
    hasher_write_u64(&mut h, nanos);
    hasher_write_u64(&mut h, address);
    let r = h.finish();
    proof {
        let s = h@;
        assert(s =~= seq![s[0], s[1]]);
    }
    r
}

/// The build's tag: the content hash of its binary when the binary could be
/// read (`image`), otherwise `otherwise` (the [`fallback`] value).
pub fn compute_tag(image: Option<&[u8]>, otherwise: u64) -> (r: u64)
    ensures
        image matches Some(bytes) ==> r == image_tag(bytes@),
        image is None ==> r == otherwise,
{
    match image {
        Some(bytes) => content_tag(bytes),
        None => otherwise,
    }
}

/// The ABI tag of this build, computed once on first use and then cached for
/// the lifetime of the load: every later read gives the first value back.
pub struct TagCache {
    tag: Option<u64>,
}

impl TagCache {
    /// The cached tag, once computed.
    pub closed spec fn spec_tag(&self) -> Option<u64> {
        self.tag
    }

    /// A cache that has not computed the tag yet.
    pub fn new() -> (r: TagCache)
        ensures
            r.spec_tag() is None,
    {
        TagCache { tag: None }
    }

    /// The cached tag, if it has been computed.
    pub fn get(&self) -> (r: Option<u64>)
        ensures
            r == self.spec_tag(),
    {
        self.tag
    }

    /// The tag: the cached value when there is one; otherwise `compute` runs
    /// once and its result is cached.
    pub fn get_or_init<F: FnOnce() -> u64>(&mut self, compute: F) -> (r: u64)
        requires
            old(self).spec_tag() is None ==> call_requires(compute, ()),
        ensures
            old(self).spec_tag() matches Some(t) ==> r == t,
            old(self).spec_tag() is None ==> call_ensures(compute, (), r),
            final(self).spec_tag() == Some(r),
    {
        match self.tag {
            Some(t) => t,
            None => {
                let t = compute();
                self.tag = Some(t);
                t
            },
        }
    }
}

} // verus!
