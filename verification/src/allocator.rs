//! Address arithmetic behind the opt-in BEAM-backed global allocator.
//!
//! `enif_alloc`, like `malloc`, takes no alignment argument. To honor an
//! arbitrary `Layout::align`, the allocator over-allocates by the alignment and
//! one machine word, hands out the first suitably aligned address at least one
//! word past the block's base, and stashes the base in the word just below the
//! handed-out address so that `dealloc` can give `enif_free` exactly the
//! pointer `enif_alloc` returned. The raw allocation and the pointer reads and
//! writes happen in the host application; this module computes every address
//! they use and proves that each lands inside the block.
use vstd::prelude::*;

verus! {

/// `a` is a power of two, as every `Layout::align` is.
pub open spec fn is_power_of_two(a: usize) -> bool {
    a > 0 && a & ((a - 1) as usize) == 0
}

/// `addr` is a multiple of the power-of-two `align`: every bit of `addr`
/// below `align` is clear.
pub open spec fn is_aligned(addr: usize, align: usize) -> bool {
    addr & ((align - 1) as usize) == 0
}

/// The first address at or above `addr` that is a multiple of `align`.
///
/// `align` must be a power of two and the rounded address must still be
/// addressable (`addr + align - 1` must not pass `usize::MAX`).
pub fn align_up(addr: usize, align: usize) -> (r: usize)
    requires
        is_power_of_two(align),
        addr + align - 1 <= usize::MAX,
    ensures
        is_aligned(r, align),
        addr <= r,
        r < addr + align,
{
    let mask: usize = align - 1;
    let sum: usize = addr + mask;
    let r = sum & !mask;
    assert(addr <= r && r < addr + align) by (bit_vector)
        requires
            align > 0,
            align & mask == 0,
            mask == align - 1,
            sum == addr + mask,
            r == sum & !mask,
    ;
    assert(r & mask == 0) by (bit_vector)
        requires
            r == sum & !mask,
    ;
    r
}

/// A [`GlobalAlloc`](std::alloc::GlobalAlloc) backed by the BEAM allocator
/// (`enif_alloc`/`enif_free`). This type carries the verified layout
/// arithmetic; the host installs the allocator itself.
pub struct EnifAlloc;

impl EnifAlloc {
    /// One machine word: the size of the stashed base pointer kept just below
    /// every address the allocator hands out.
    pub fn header() -> (r: usize)
        ensures
            r == usize::BITS / 8,
            r == 4 || r == 8,
    {
        (usize::BITS / 8) as usize
    }

    /// The number of bytes to request from `enif_alloc` for a layout of
    /// `size` bytes aligned to `align`: the size, plus slack to bump up to an
    /// aligned boundary, plus one header word. `None` when that sum would
    /// overflow `usize` (the allocation is then refused rather than wrapped).
    pub fn request_size(size: usize, align: usize) -> (r: Option<usize>)
        ensures
            size + align + usize::BITS / 8 <= usize::MAX ==> r == Some(
                (size + align + usize::BITS / 8) as usize,
            ),
            size + align + usize::BITS / 8 > usize::MAX ==> r is None,
    {
        match size.checked_add(align) {
            Some(n) => n.checked_add(Self::header()),
            None => None,
        }
    }

    /// The address handed to the caller for a block whose base address is
    /// `base`: the first address at least one header word past `base` that
    /// is aligned to `align`.
    pub fn user_address(base: usize, align: usize) -> (r: usize)
        requires
            is_power_of_two(align),
            base + usize::BITS / 8 + align - 1 <= usize::MAX,
        ensures
            is_aligned(r, align),
            base + usize::BITS / 8 <= r,
            r < base + usize::BITS / 8 + align,
    {
        align_up(base + Self::header(), align)
    }

    /// The address of the word that holds the stashed base pointer for the
    /// user address `user`: the word immediately below it.
    pub fn header_address(user: usize) -> (r: usize)
        requires
            user >= usize::BITS / 8,
        ensures
            r == user - usize::BITS / 8,
    {
        user - Self::header()
    }
}

/// Every address the allocator touches lies inside the block `enif_alloc`
/// returned: for a block of `request_size(size, align)` bytes at `base` and the
/// user address `user_address(base, align)` computed for it, the header word
/// below the user address starts at or after `base`, and the `size` user
/// bytes end at or before the end of the block.
pub proof fn lemma_user_block_within_allocation(base: usize, size: usize, align: usize, user: usize)
    requires
        is_power_of_two(align),
        base + size + align + usize::BITS / 8 <= usize::MAX,
        is_aligned(user, align),
        base + usize::BITS / 8 <= user,
        user < base + usize::BITS / 8 + align,
    ensures
        base <= user - usize::BITS / 8,
        user + size <= base + (size + align + usize::BITS / 8),
{
}

} // verus!
