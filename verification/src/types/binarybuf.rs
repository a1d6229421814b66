//! `BinaryBuf` — an owned, growable binary buffer (the `Vec<u8>` model).
//!
//! The buffer tracks the bytes written (`len`) and the allocated size
//! (`capacity`) separately, the way an `ErlNifBinary` grown with
//! `enif_realloc_binary` does: appending past the capacity grows it to the
//! larger of what is required and double the old capacity. Handing the bytes
//! to the BEAM as a binary term (`enif_make_binary`) is the host's step; this
//! type owns the bytes until then.
use vstd::prelude::*;

verus! {

/// The capacity after making room for `additional` more bytes beyond `len`
/// in a buffer of `capacity`: unchanged when they already fit, otherwise the
/// larger of the required size and double the old capacity (the required
/// size alone when doubling would overflow `usize`).
pub open spec fn grown_capacity(len: nat, capacity: nat, additional: nat) -> nat {
    let required = len + additional;
    if required <= capacity {
        capacity
    } else {
        let doubled = if capacity * 2 <= usize::MAX {
            capacity * 2
        } else {
            required
        };
        if required >= doubled {
            required
        } else {
            doubled
        }
    }
}

/// An owned, mutable binary buffer.
///
/// Read the bytes with [`as_bytes`](Self::as_bytes); consume it with
/// [`into_bytes`](Self::into_bytes) to hand them to the BEAM.
pub struct BinaryBuf {
    bytes: Vec<u8>,
    capacity: usize,
}

impl View for BinaryBuf {
    type V = Seq<u8>;

    /// The bytes written so far.
    closed spec fn view(&self) -> Seq<u8> {
        self.bytes@
    }
}

impl BinaryBuf {
    /// Never more bytes are written than are allocated.
    #[verifier::type_invariant]
    spec fn written_within_capacity(self) -> bool {
        self.bytes@.len() <= self.capacity
    }

    /// The allocated capacity in bytes.
    pub closed spec fn spec_capacity(&self) -> usize {
        self.capacity
    }

    /// Move the written bytes out, leaving the buffer empty with its
    /// capacity unchanged (the caller puts them back).
    fn take_bytes(&mut self) -> (r: Vec<u8>)
        ensures
            r@ == old(self)@,
            final(self)@ == Seq::<u8>::empty(),
            final(self).spec_capacity() == old(self).spec_capacity(),
            r@.len() <= old(self).spec_capacity(),
    {
        proof {
            use_type_invariant(&*self);
        }
        let mut bytes: Vec<u8> = Vec::new();
        std::mem::swap(&mut bytes, &mut self.bytes);
        bytes
    }

    /// Create an empty buffer with no allocation.
    pub fn new() -> (r: BinaryBuf)
        ensures
            r@ == Seq::<u8>::empty(),
            r.spec_capacity() == 0,
    {
        BinaryBuf::with_capacity(0)
    }

    /// Create an empty buffer with `capacity` bytes preallocated.
    pub fn with_capacity(capacity: usize) -> (r: BinaryBuf)
        ensures
            r@ == Seq::<u8>::empty(),
            r.spec_capacity() == capacity,
    {
        BinaryBuf { bytes: Vec::new(), capacity }
    }

    /// Take ownership of already-filled bytes (for example the output of
    /// `enif_term_to_binary`), where the whole allocation is live data.
    pub fn from_filled(bytes: Vec<u8>) -> (r: BinaryBuf)
        ensures
            r@ == bytes@,
            r.spec_capacity() == bytes@.len(),
    {
        let capacity = bytes.len();
        BinaryBuf { bytes, capacity }
    }

    /// Number of bytes written.
    pub fn len(&self) -> (r: usize)
        ensures
            r == self@.len(),
    {
        self.bytes.len()
    }

    /// Whether no bytes have been written.
    pub fn is_empty(&self) -> (r: bool)
        ensures
            r == (self@.len() == 0),
    {
        self.bytes.len() == 0
    }

    /// Allocated capacity in bytes.
    pub fn capacity(&self) -> (r: usize)
        ensures
            r == self.spec_capacity(),
            self@.len() <= r,
    {
        proof {
            use_type_invariant(self);
        }
        self.capacity
    }

    /// View the written bytes.
    pub fn as_bytes(&self) -> (r: &[u8])
        ensures
            r@ == self@,
    {
        self.bytes.as_slice()
    }

    /// Overwrite the written byte at `index`.
    pub fn set(&mut self, index: usize, byte: u8)
        requires
            index < old(self)@.len(),
        ensures
            final(self)@ == old(self)@.update(index as int, byte),
            final(self).spec_capacity() == old(self).spec_capacity(),
    {
        proof {
            use_type_invariant(&*self);
        }
        let mut bytes = self.take_bytes();
        bytes.set(index, byte);
        self.bytes = bytes;
    }

    /// Ensure room for at least `additional` more bytes: when they do not
    /// fit, grow to the larger of the required size and double the capacity.
    pub fn reserve(&mut self, additional: usize)
        requires
            old(self)@.len() + additional <= usize::MAX,
        ensures
            final(self)@ == old(self)@,
            final(self).spec_capacity() == grown_capacity(
                old(self)@.len(),
                old(self).spec_capacity() as nat,
                additional as nat,
            ),
            final(self)@.len() + additional <= final(self).spec_capacity(),
    {
        proof {
            use_type_invariant(&*self);
        }
        let required = self.bytes.len() + additional;
        if required <= self.capacity {
            return;
        }
        let doubled = match self.capacity.checked_mul(2) {
            Some(d) => d,
            None => required,
        };
        let new_capacity = if required >= doubled {
            required
        } else {
            doubled
        };
        self.capacity = new_capacity;
    }

    /// Resize to `new_len`: new bytes are filled with `value`; a shorter
    /// length truncates.
    pub fn resize(&mut self, new_len: usize, value: u8)
        ensures
            new_len <= old(self)@.len() ==> final(self)@ == old(self)@.subrange(0, new_len as int),
            new_len > old(self)@.len() ==> final(self)@ == old(self)@ + Seq::new(
                (new_len - old(self)@.len()) as nat,
                |i: int| value,
            ),
            new_len <= old(self)@.len() ==> final(self).spec_capacity() == old(self).spec_capacity(),
            new_len > old(self)@.len() ==> final(self).spec_capacity() == grown_capacity(
                old(self)@.len(),
                old(self).spec_capacity() as nat,
                (new_len - old(self)@.len()) as nat,
            ),
    {
        proof {
            use_type_invariant(&*self);
        }
        let len = self.bytes.len();
        if new_len > len {
            self.reserve(new_len - len);
            proof {
                use_type_invariant(&*self);
            }
            let mut bytes = self.take_bytes();
            let ghost before = bytes@;
            bytes.resize(new_len, value);
            assert(bytes@ =~= before + Seq::new((new_len - len) as nat, |i: int| value));
            self.bytes = bytes;
        } else {
            let mut bytes = self.take_bytes();
            bytes.truncate(new_len);
            self.bytes = bytes;
        }
    }

    /// Append one byte.
    pub fn push(&mut self, byte: u8)
        requires
            old(self)@.len() < usize::MAX,
        ensures
            final(self)@ == old(self)@.push(byte),
            final(self).spec_capacity() == grown_capacity(
                old(self)@.len(),
                old(self).spec_capacity() as nat,
                1,
            ),
    {
        self.reserve(1);
        proof {
            use_type_invariant(&*self);
        }
        let mut bytes = self.take_bytes();
        bytes.push(byte);
        self.bytes = bytes;
    }

    /// Append a byte slice.
    pub fn extend_from_slice(&mut self, more: &[u8])
        requires
            old(self)@.len() + more@.len() <= usize::MAX,
        ensures
            final(self)@ == old(self)@ + more@,
            final(self).spec_capacity() == grown_capacity(
                old(self)@.len(),
                old(self).spec_capacity() as nat,
                more@.len(),
            ),
    {
        self.reserve(more.len());
        proof {
            use_type_invariant(&*self);
        }
        let mut bytes = self.take_bytes();
        let ghost before = bytes@;
        bytes.extend_from_slice(more);
        assert(bytes@ =~= before + more@);
        self.bytes = bytes;
    }

    /// Write `more` to the end of the buffer (the `std::io::Write::write`
    /// behaviour): every byte is taken, and the count written is returned.
    pub fn write(&mut self, more: &[u8]) -> (r: usize)
        requires
            old(self)@.len() + more@.len() <= usize::MAX,
        ensures
            r == more@.len(),
            final(self)@ == old(self)@ + more@,
            final(self).spec_capacity() == grown_capacity(
                old(self)@.len(),
                old(self).spec_capacity() as nat,
                more@.len(),
            ),
    {
        self.extend_from_slice(more);
        more.len()
    }

    /// Consume the buffer, yielding exactly the written bytes: the allocation
    /// is shrunk to the written length before it is handed over.
    pub fn into_bytes(self) -> (r: Vec<u8>)
        ensures
            r@ == self@,
    {
        self.bytes
    }
}

/// A growable binary buffer for building a binary term byte by byte: tracks
/// the bytes written and the allocated capacity separately, growing like
/// [`BinaryBuf`]. Finalizing it hands the exact written bytes to the BEAM.
pub struct BinaryBuilder {
    buf: BinaryBuf,
}

impl View for BinaryBuilder {
    type V = Seq<u8>;

    /// The bytes written so far.
    closed spec fn view(&self) -> Seq<u8> {
        self.buf@
    }
}

impl BinaryBuilder {
    /// The allocated capacity in bytes.
    pub closed spec fn spec_capacity(&self) -> usize {
        self.buf.spec_capacity()
    }

    /// Create an empty builder with no allocation.
    pub fn new() -> (r: BinaryBuilder)
        ensures
            r@ == Seq::<u8>::empty(),
            r.spec_capacity() == 0,
    {
        BinaryBuilder { buf: BinaryBuf::new() }
    }

    /// Create an empty builder with `capacity` bytes preallocated.
    pub fn with_capacity(capacity: usize) -> (r: BinaryBuilder)
        ensures
            r@ == Seq::<u8>::empty(),
            r.spec_capacity() == capacity,
    {
        BinaryBuilder { buf: BinaryBuf::with_capacity(capacity) }
    }

    /// Number of bytes written.
    pub fn len(&self) -> (r: usize)
        ensures
            r == self@.len(),
    {
        self.buf.len()
    }

    /// Whether no bytes have been written.
    pub fn is_empty(&self) -> (r: bool)
        ensures
            r == (self@.len() == 0),
    {
        self.buf.is_empty()
    }

    /// Allocated capacity in bytes.
    pub fn capacity(&self) -> (r: usize)
        ensures
            r == self.spec_capacity(),
            self@.len() <= r,
    {
        self.buf.capacity()
    }

    /// View the written bytes.
    pub fn as_slice(&self) -> (r: &[u8])
        ensures
            r@ == self@,
    {
        self.buf.as_bytes()
    }

    /// Overwrite the written byte at `index`.
    pub fn set(&mut self, index: usize, byte: u8)
        requires
            index < old(self)@.len(),
        ensures
            final(self)@ == old(self)@.update(index as int, byte),
            final(self).spec_capacity() == old(self).spec_capacity(),
    {
        self.buf.set(index, byte);
    }

    /// Ensure room for at least `additional` more bytes, growing like
    /// [`BinaryBuf::reserve`].
    pub fn reserve(&mut self, additional: usize)
        requires
            old(self)@.len() + additional <= usize::MAX,
        ensures
            final(self)@ == old(self)@,
            final(self).spec_capacity() == grown_capacity(
                old(self)@.len(),
                old(self).spec_capacity() as nat,
                additional as nat,
            ),
    {
        self.buf.reserve(additional);
    }

    /// Resize to `new_len`, filling new bytes with `value` or truncating.
    pub fn resize(&mut self, new_len: usize, value: u8)
        ensures
            new_len <= old(self)@.len() ==> final(self)@ == old(self)@.subrange(0, new_len as int),
            new_len > old(self)@.len() ==> final(self)@ == old(self)@ + Seq::new(
                (new_len - old(self)@.len()) as nat,
                |i: int| value,
            ),
            new_len <= old(self)@.len() ==> final(self).spec_capacity() == old(self).spec_capacity(),
            new_len > old(self)@.len() ==> final(self).spec_capacity() == grown_capacity(
                old(self)@.len(),
                old(self).spec_capacity() as nat,
                (new_len - old(self)@.len()) as nat,
            ),
    {
        self.buf.resize(new_len, value);
    }

    /// Append one byte.
    pub fn push(&mut self, byte: u8)
        requires
            old(self)@.len() < usize::MAX,
        ensures
            final(self)@ == old(self)@.push(byte),
            final(self).spec_capacity() == grown_capacity(
                old(self)@.len(),
                old(self).spec_capacity() as nat,
                1,
            ),
    {
        self.buf.push(byte);
    }

    /// Append a byte slice.
    pub fn extend_from_slice(&mut self, more: &[u8])
        requires
            old(self)@.len() + more@.len() <= usize::MAX,
        ensures
            final(self)@ == old(self)@ + more@,
            final(self).spec_capacity() == grown_capacity(
                old(self)@.len(),
                old(self).spec_capacity() as nat,
                more@.len(),
            ),
    {
        self.buf.extend_from_slice(more);
    }

    /// Write `more` to the end of the buffer, returning the count written.
    pub fn write(&mut self, more: &[u8]) -> (r: usize)
        requires
            old(self)@.len() + more@.len() <= usize::MAX,
        ensures
            r == more@.len(),
            final(self)@ == old(self)@ + more@,
            final(self).spec_capacity() == grown_capacity(
                old(self)@.len(),
                old(self).spec_capacity() as nat,
                more@.len(),
            ),
    {
        self.buf.write(more)
    }

    /// Consume the builder, yielding exactly the written bytes (the
    /// allocation shrunk to the written length).
    pub fn into_bytes(self) -> (r: Vec<u8>)
        ensures
            r@ == self@,
    {
        self.buf.into_bytes()
    }
}

} // verus!
