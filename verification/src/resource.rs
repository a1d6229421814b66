//! Resource types: the size and alignment arithmetic of a resource object and
//! the BEAM-side names under which resource types are registered.
//!
//! A resource type is registered under `"{rust_type}#abi={hash}"`, where
//! `{hash}` is this build's ABI tag as sixteen lowercase hex digits, so a
//! different build takes a different name and the BEAM never hands one build's
//! resources to another across a hot upgrade. A type that opts into
//! cross-build takeover is registered under `"{rust_type}#tag={tag}"` instead.
//! The names are returned as the bytes handed to `enif_init_resource_type`.
use vstd::prelude::*;

use crate::allocator::{align_up, is_aligned, is_power_of_two};
use vstd::string::StringSliceAdditionalSpecFns;

verus! {

/// Bytes to request from `enif_alloc_resource` for a `T` of `size` bytes and
/// alignment `align`: enough that an `align`-aligned `T` fits wherever the
/// BEAM places the block (`enif_alloc_resource` only aligns to a pointer).
pub fn resource_alloc_size(size: usize, align: usize) -> (r: usize)
    requires
        align >= 1,
        size + align - 1 <= usize::MAX,
    ensures
        r == size + align - 1,
{
    size + (align - 1)
}

/// The aligned address of the `T` inside a resource block starting at `raw`.
pub fn align_ptr(raw: usize, align: usize) -> (r: usize)
    requires
        is_power_of_two(align),
        raw + align - 1 <= usize::MAX,
    ensures
        is_aligned(r, align),
        raw <= r,
        r < raw + align,
{
    align_up(raw, align)
}

/// The value placed in a resource block lies inside the block: for a block of
/// `resource_alloc_size(size, align)` bytes at `raw`, the aligned object at
/// `align_ptr(raw, align)` ends at or before the end of the block.
pub proof fn lemma_resource_object_within_block(raw: usize, size: usize, align: usize, obj: usize)
    requires
        is_power_of_two(align),
        raw + size + align - 1 <= usize::MAX,
        raw <= obj,
        obj < raw + align,
    ensures
        obj + size <= raw + (size + align - 1),
{
}

/// ASCII `'#'`.
pub const HASH_SIGN: u8 = 35;

/// ASCII `'='`.
pub const EQUALS_SIGN: u8 = 61;

/// The lowercase hex digit (ASCII) for a value below 16.
pub open spec fn hex_digit(d: nat) -> u8 {
    if d < 10 {
        (48 + d) as u8
    } else {
        (87 + d) as u8
    }
}

/// `tag` shifted right by `k` hex digits.
pub open spec fn shr_digits(tag: nat, k: nat) -> nat
    decreases k,
{
    if k == 0 {
        tag
    } else {
        shr_digits(tag, (k - 1) as nat) / 16
    }
}

/// `tag` as sixteen lowercase hex digits, most significant first, zero padded
/// (`format!("{:016x}", tag)`).
pub open spec fn hex16(tag: u64) -> Seq<u8> {
    Seq::new(16, |i: int| hex_digit(shr_digits(tag as nat, (15 - i) as nat) % 16))
}

/// The name under which a resource type is registered by default:
/// `rust_type`, then `#abi=`, then the ABI tag as sixteen hex digits.
pub open spec fn abi_name(rust_type: Seq<u8>, tag: u64) -> Seq<u8> {
    rust_type + seq![HASH_SIGN, 97u8, 98u8, 105u8, EQUALS_SIGN] + hex16(tag)
}

/// The name under which a resource type opted into cross-build takeover is
/// registered: `rust_type`, then `#tag=`, then the caller's tag.
pub open spec fn tagged_name(rust_type: Seq<u8>, tag: Seq<u8>) -> Seq<u8> {
    rust_type + seq![HASH_SIGN, 116u8, 97u8, 103u8, EQUALS_SIGN] + tag
}

/// The lowercase hex digit for `d < 16`.
fn hex_digit_of(d: u64) -> (r: u8)
    requires
        d < 16,
    ensures
        r == hex_digit(d as nat),
{
    if d < 10 {
        48 + d as u8
    } else {
        87 + d as u8
    }
}

/// `tag` as sixteen zero-padded lowercase hex digits (ASCII).
pub fn format_hex16(tag: u64) -> (r: Vec<u8>)
    ensures
        r@ == hex16(tag),
{
    // Collect the digits least significant first, then emit them most
    // significant first.
    let mut t: u64 = tag;
    let mut i: usize = 0;
    let mut out: Vec<u8> = Vec::new();
    assert(shr_digits(tag as nat, 0) == tag as nat);
    let ghost low: Seq<u8> = Seq::new(16, |j: int| hex_digit(shr_digits(tag as nat, j as nat) % 16));
    let mut rev: Vec<u8> = Vec::new();
    while i < 16
        invariant
            i <= 16,
            t as nat == shr_digits(tag as nat, i as nat),
            rev@.len() == i,
            low == Seq::new(16, |j: int| hex_digit(shr_digits(tag as nat, j as nat) % 16)),
            forall|j: int| 0 <= j < i ==> #[trigger] rev@[j] == low[j],
        decreases 16 - i,
    {
        let d = t % 16;
        assert(low[i as int] == hex_digit(shr_digits(tag as nat, i as nat) % 16));
        rev.push(hex_digit_of(d));
        assert(shr_digits(tag as nat, (i + 1) as nat) == shr_digits(tag as nat, i as nat) / 16);
        t = t / 16;
        i = i + 1;
    }
    let mut m: usize = 16;
    while m > 0
        invariant
            m <= 16,
            rev@.len() == 16,
            out@.len() == 16 - m,
            low.len() == 16,
            forall|j: int| 0 <= j < 16 ==> #[trigger] rev@[j] == low[j],
            forall|j: int| 0 <= j < 16 - m ==> #[trigger] out@[j] == low[15 - j],
        decreases m,
    {
        m = m - 1;
        out.push(rev[m]);
    }
    assert(out@ =~= hex16(tag));
    out
}

/// The BEAM-side name for a resource type registered with the build's ABI
/// tag: `"{rust_type}#abi={tag:016x}"`.
pub fn abi_resource_name(rust_type: &str, tag: u64) -> (r: Vec<u8>)
    ensures
        r@ == abi_name(rust_type.spec_bytes(), tag),
{
    let mut name: Vec<u8> = Vec::new();
    name.extend_from_slice(rust_type.as_bytes());
    name.push(HASH_SIGN);
    name.push(97);
    name.push(98);
    name.push(105);
    name.push(EQUALS_SIGN);
    let hex = format_hex16(tag);
    let ghost head = name@;
    name.extend_from_slice(hex.as_slice());
    assert(name@ =~= head + hex16(tag));
    assert(head =~= rust_type.spec_bytes() + seq![HASH_SIGN, 97u8, 98u8, 105u8, EQUALS_SIGN]);
    name
}

/// The BEAM-side name for a resource type registered for cross-build
/// takeover: `"{rust_type}#tag={tag}"`.
pub fn tagged_resource_name(rust_type: &str, tag: &str) -> (r: Vec<u8>)
    ensures
        r@ == tagged_name(rust_type.spec_bytes(), tag.spec_bytes()),
{
    let mut name: Vec<u8> = Vec::new();
    name.extend_from_slice(rust_type.as_bytes());
    name.push(HASH_SIGN);
    name.push(116);
    name.push(97);
    name.push(103);
    name.push(EQUALS_SIGN);
    let ghost head = name@;
    name.extend_from_slice(tag.as_bytes());
    assert(name@ =~= head + tag.spec_bytes());
    assert(head =~= rust_type.spec_bytes() + seq![HASH_SIGN, 116u8, 97u8, 103u8, EQUALS_SIGN]);
    name
}

/// Whether a name can be handed to the BEAM as a C string: it holds no NUL
/// byte. A name that fails this is refused at registration.
pub fn is_valid_c_name(name: &[u8]) -> (r: bool)
    ensures
        r <==> forall|i: int| 0 <= i < name@.len() ==> name@[i] != 0,
{
    let mut i: usize = 0;
    while i < name.len()
        invariant
            i <= name@.len(),
            forall|j: int| 0 <= j < i ==> name@[j] != 0,
        decreases name@.len() - i,
    {
        if name[i] == 0 {
            return false;
        }
        i = i + 1;
    }
    true
}

/// Upper bound on `tag` shifted right by `k` hex digits, for a 64-bit tag:
/// `16^(16 - k)` while `k <= 16`.
spec fn digit_bound(k: nat) -> nat
    decreases k,
{
    if k == 0 {
        0x1_0000_0000_0000_0000
    } else {
        digit_bound((k - 1) as nat) / 16
    }
}

proof fn lemma_digit_bound(x: nat, k: nat)
    requires
        x < 0x1_0000_0000_0000_0000,
        k <= 16,
    ensures
        shr_digits(x, k) < digit_bound(k),
        digit_bound(k) % 16 == 0 || k == 16,
    decreases k,
{
    reveal_with_fuel(digit_bound, 17);
    if k > 0 {
        lemma_digit_bound(x, (k - 1) as nat);
    }
}

/// Two tags whose hex digits agree from position `k` (counted from the least
/// significant digit) upward agree once shifted right by `k` digits.
proof fn lemma_equal_digits_from(a: u64, b: u64, k: nat)
    requires
        k <= 16,
        forall|j: nat|
            k <= j < 16 ==> #[trigger] (shr_digits(a as nat, j) % 16) == shr_digits(b as nat, j)
                % 16,
    ensures
        shr_digits(a as nat, k) == shr_digits(b as nat, k),
    decreases 16 - k,
{
    if k == 16 {
        lemma_digit_bound(a as nat, 16);
        lemma_digit_bound(b as nat, 16);
        reveal_with_fuel(digit_bound, 17);
    } else {
        lemma_equal_digits_from(a, b, k + 1);
        let x = shr_digits(a as nat, k);
        let y = shr_digits(b as nat, k);
        assert(shr_digits(a as nat, k + 1) == x / 16);
        assert(shr_digits(b as nat, k + 1) == y / 16);
        assert(x % 16 == y % 16);
        assert(x == 16 * (x / 16) + x % 16);
        assert(y == 16 * (y / 16) + y % 16);
    }
}

/// The default resource-type name tells builds apart: two builds whose ABI
/// tags differ register a type under different names, so the BEAM never
/// treats one build's resource type as the other's.
pub proof fn lemma_abi_name_distinguishes_tags(rust_type: Seq<u8>, tag1: u64, tag2: u64)
    requires
        abi_name(rust_type, tag1) == abi_name(rust_type, tag2),
    ensures
        tag1 == tag2,
{
    let p = rust_type.len() as int + 5;
    let n1 = abi_name(rust_type, tag1);
    let n2 = abi_name(rust_type, tag2);
    assert(n1.subrange(p, p + 16) =~= hex16(tag1));
    assert(n2.subrange(p, p + 16) =~= hex16(tag2));
    assert forall|j: nat| 0 <= j < 16 implies #[trigger] (shr_digits(tag1 as nat, j) % 16)
        == shr_digits(tag2 as nat, j) % 16 by {
        let i = 15 - j;
        assert(hex16(tag1)[i] == hex16(tag2)[i]);
        assert(hex16(tag1)[i] == hex_digit(shr_digits(tag1 as nat, j) % 16));
        assert(hex16(tag2)[i] == hex_digit(shr_digits(tag2 as nat, j) % 16));
    }
    lemma_equal_digits_from(tag1, tag2, 0);
}

/// A type registered for cross-build takeover never shares its name with a
/// type registered under the build's ABI tag: after the Rust type name the
/// two names part at `#abi=` versus `#tag=`.
pub proof fn lemma_abi_and_tagged_names_differ(rust_type: Seq<u8>, abi_tag: u64, tag: Seq<u8>)
    ensures
        abi_name(rust_type, abi_tag) != tagged_name(rust_type, tag),
{
    let i = rust_type.len() as int + 1;
    assert(abi_name(rust_type, abi_tag)[i] == 97u8);
    assert(tagged_name(rust_type, tag)[i] == 116u8);
}

} // verus!
