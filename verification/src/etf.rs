//! The integer subset of the Erlang external term format (ETF), and its
//! conversion to and from arbitrary-precision `num_bigint::BigInt` values.
//!
//! The NIF API has no accessor for integers wider than 64 bits. A bignum is
//! therefore read by serializing the term (`enif_term_to_binary`) and parsing
//! the integer encoding back out of the bytes, and written by emitting an ETF
//! bignum and deserializing it (`enif_binary_to_term`). The byte-level format
//! is this module's own logic and is verified here; building and taking apart
//! the `BigInt` itself is done by `num_bigint`.
use vstd::prelude::*;

use num_bigint::BigInt;

verus! {

/// The version byte that prefixes every term `enif_term_to_binary` produces.
pub const ETF_VERSION: u8 = 131;

/// `SMALL_INTEGER_EXT`: one unsigned byte.
pub const SMALL_INTEGER_EXT: u8 = 97;

/// `INTEGER_EXT`: four bytes, big-endian, signed.
pub const INTEGER_EXT: u8 = 98;

/// `SMALL_BIG_EXT`: `n: u8`, `sign: u8`, then `n` bytes of little-endian magnitude.
pub const SMALL_BIG_EXT: u8 = 110;

/// `LARGE_BIG_EXT`: `n: u32` big-endian, `sign: u8`, then `n` bytes of
/// little-endian magnitude.
pub const LARGE_BIG_EXT: u8 = 111;

#[verifier::external_type_specification]
#[verifier::external_body]
pub struct ExBigInt(BigInt);

/// The `BigInt` that `BigInt::from(v)` builds from an unsigned byte.
pub uninterp spec fn bigint_of_u8(v: u8) -> BigInt;

/// The `BigInt` that `BigInt::from(v)` builds from an `i32`.
pub uninterp spec fn bigint_of_i32(v: i32) -> BigInt;

/// The `BigInt` that `BigInt::from_bytes_le(sign, magnitude)` builds, where the
/// sign is `Sign::Minus` when `negative` and `Sign::Plus` otherwise.
pub uninterp spec fn bigint_of_le_magnitude(negative: bool, magnitude: Seq<u8>) -> BigInt;

/// `BigInt::from(v)` for an unsigned byte (num_bigint's `From<u8>`).
#[verifier::external_body]
fn bigint_from_u8(v: u8) -> (r: BigInt)
    ensures
        r == bigint_of_u8(v),
{
    BigInt::from(v)
}

/// `BigInt::from(v)` for an `i32` (num_bigint's `From<i32>`).
#[verifier::external_body]
fn bigint_from_i32(v: i32) -> (r: BigInt)
    ensures
        r == bigint_of_i32(v),
{
    BigInt::from(v)
}

/// `BigInt::from_bytes_le(sign, magnitude)`: `Sign::Minus` when `negative`,
/// `Sign::Plus` otherwise.
#[verifier::external_body]
fn bigint_from_le_magnitude(negative: bool, magnitude: &[u8]) -> (r: BigInt)
    ensures
        r == bigint_of_le_magnitude(negative, magnitude@),
{
    let sign = if negative {
        num_bigint::Sign::Minus
    } else {
        num_bigint::Sign::Plus
    };
    BigInt::from_bytes_le(sign, magnitude)
}

/// What `BigInt::to_bytes_le` gives for `val`: whether the sign is
/// `Sign::Minus`, and the little-endian magnitude bytes.
pub uninterp spec fn bigint_le_bytes(val: BigInt) -> (bool, Seq<u8>);

/// `BigInt::to_bytes_le`: the sign (`true` for `Sign::Minus`, `false` for
/// `Sign::Plus` and `Sign::NoSign`) and the little-endian magnitude bytes.
/// `BigInt::from_bytes_le` given that sign and those bytes rebuilds `val`
/// (both go through `BigUint`'s little-endian byte conversion, and
/// `BigInt::from_biguint` normalises a zero magnitude to `NoSign`).
#[verifier::external_body]
fn bigint_to_le_magnitude(val: &BigInt) -> (r: (bool, Vec<u8>))
    ensures
        r.0 == bigint_le_bytes(*val).0,
        r.1@ == bigint_le_bytes(*val).1,
        bigint_of_le_magnitude(r.0, r.1@) == *val,
{
    let (sign, magnitude) = val.to_bytes_le();
    match sign {
        num_bigint::Sign::Minus => (true, magnitude),
        num_bigint::Sign::NoSign => (false, magnitude),
        num_bigint::Sign::Plus => (false, magnitude),
    }
}

/// The unsigned big-endian value of the four bytes of `b` starting at `at`.
pub open spec fn be_u32(b: Seq<u8>, at: int) -> nat {
    (b[at] as nat) * 16777216 + (b[at + 1] as nat) * 65536 + (b[at + 2] as nat) * 256 + (
    b[at + 3] as nat)
}

/// The signed (two's complement) big-endian value of the four bytes of `b`
/// starting at `at`, as `i32::from_be_bytes` reads them.
pub open spec fn be_i32(b: Seq<u8>, at: int) -> int {
    let u = be_u32(b, at);
    if u >= 0x8000_0000 {
        u - 0x1_0000_0000
    } else {
        u as int
    }
}

/// `bytes` is a version-prefixed ETF integer in one of the four integer
/// encodings, long enough for every field its tag announces.
pub open spec fn etf_integer_wf(bytes: Seq<u8>) -> bool {
    &&& bytes.len() >= 2
    &&& bytes[0] == ETF_VERSION
    &&& {
        let tag = bytes[1];
        ||| tag == SMALL_INTEGER_EXT && bytes.len() >= 3
        ||| tag == INTEGER_EXT && bytes.len() >= 6
        ||| tag == SMALL_BIG_EXT && bytes.len() >= 4 && bytes.len() >= 4 + bytes[2]
        ||| tag == LARGE_BIG_EXT && bytes.len() >= 7 && bytes.len() >= 7 + be_u32(bytes, 2)
    }
}

/// The `BigInt` an ETF integer encodes: `SMALL_INTEGER_EXT` and `INTEGER_EXT`
/// through `BigInt::from`, the two bignum tags through `BigInt::from_bytes_le`
/// with the sign byte (`0` is non-negative, anything else negative) and the
/// magnitude slice.
pub open spec fn etf_integer_value(bytes: Seq<u8>) -> BigInt {
    let tag = bytes[1];
    if tag == SMALL_INTEGER_EXT {
        bigint_of_u8(bytes[2])
    } else if tag == INTEGER_EXT {
        bigint_of_i32(be_i32(bytes, 2) as i32)
    } else if tag == SMALL_BIG_EXT {
        let n = bytes[2] as int;
        bigint_of_le_magnitude(bytes[3] != 0, bytes.subrange(4, 4 + n))
    } else {
        let n = be_u32(bytes, 2) as int;
        bigint_of_le_magnitude(bytes[6] != 0, bytes.subrange(7, 7 + n))
    }
}

/// The four big-endian bytes of `n`.
pub open spec fn be_bytes_u32(n: u32) -> Seq<u8> {
    seq![
        (n / 16777216) as u8,
        (n / 65536 % 256) as u8,
        (n / 256 % 256) as u8,
        (n % 256) as u8,
    ]
}

/// The version-prefixed ETF bignum for a sign and a little-endian magnitude:
/// `SMALL_BIG_EXT` when the magnitude has at most 255 bytes, `LARGE_BIG_EXT`
/// (with the length as a big-endian `u32`) otherwise. The sign byte is `1`
/// for negative, `0` otherwise.
pub open spec fn etf_bignum_bytes(negative: bool, magnitude: Seq<u8>) -> Seq<u8> {
    let sign: u8 = if negative {
        1
    } else {
        0
    };
    if magnitude.len() <= 255 {
        seq![ETF_VERSION, SMALL_BIG_EXT, magnitude.len() as u8, sign] + magnitude
    } else {
        seq![ETF_VERSION, LARGE_BIG_EXT] + be_bytes_u32(magnitude.len() as u32) + seq![sign]
            + magnitude
    }
}

/// Read the big-endian `u32` at `at`.
fn read_be_u32(bytes: &[u8], at: usize) -> (r: u32)
    requires
        at + 4 <= bytes@.len(),
    ensures
        r == be_u32(bytes@, at as int),
{
    let b0 = bytes[at] as u32;
    let b1 = bytes[at + 1] as u32;
    let b2 = bytes[at + 2] as u32;
    let b3 = bytes[at + 3] as u32;
    b0 * 16777216 + b1 * 65536 + b2 * 256 + b3
}

/// Read the big-endian two's-complement `i32` at `at`.
fn read_be_i32(bytes: &[u8], at: usize) -> (r: i32)
    requires
        at + 4 <= bytes@.len(),
    ensures
        r == be_i32(bytes@, at as int),
{
    let u = read_be_u32(bytes, at);
    if u >= 0x8000_0000 {
        let wide: i64 = u as i64 - 0x1_0000_0000i64;
        wide as i32
    } else {
        u as i32
    }
}

/// Parse a `BigInt` out of the ETF bytes `enif_term_to_binary` produced for an
/// integer term.
pub fn etf_integer_to_bigint(bytes: &[u8]) -> (r: BigInt)
    requires
        etf_integer_wf(bytes@),
    ensures
        r == etf_integer_value(bytes@),
{
    let tag = bytes[1];
    if tag == SMALL_INTEGER_EXT {
        bigint_from_u8(bytes[2])
    } else if tag == INTEGER_EXT {
        bigint_from_i32(read_be_i32(bytes, 2))
    } else if tag == SMALL_BIG_EXT {
        let n = bytes[2] as usize;
        let magnitude = &bytes[4..4 + n];
        bigint_from_le_magnitude(bytes[3] != 0, magnitude)
    } else {
        let n = read_be_u32(bytes, 2) as usize;
        let magnitude = &bytes[7..7 + n];
        bigint_from_le_magnitude(bytes[6] != 0, magnitude)
    }
}

/// Encode a sign and little-endian magnitude as a version-prefixed ETF bignum.
pub fn encode_etf_bignum(negative: bool, magnitude: &[u8]) -> (r: Vec<u8>)
    ensures
        r@ == etf_bignum_bytes(negative, magnitude@),
{
    let sign: u8 = if negative {
        1
    } else {
        0
    };
    let mut etf: Vec<u8> = Vec::new();
    etf.push(ETF_VERSION);
    if magnitude.len() <= 255 {
        etf.push(SMALL_BIG_EXT);
        etf.push(magnitude.len() as u8);
        etf.push(sign);
    } else {
        #[verifier::truncate]
        let n = magnitude.len() as u32;
        etf.push(LARGE_BIG_EXT);
        etf.push((n / 16777216) as u8);
        etf.push((n / 65536 % 256) as u8);
        etf.push((n / 256 % 256) as u8);
        etf.push((n % 256) as u8);
        etf.push(sign);
    }
    let ghost head = etf@;
    etf.extend_from_slice(magnitude);
    assert(etf@ =~= head + magnitude@);
    etf
}

/// Encode a `BigInt` as a version-prefixed ETF bignum (the caller has already
/// ruled out the `i64`/`u64` fast paths): the sign and little-endian
/// magnitude of `val` in the bignum encoding. Parsing the result back gives
/// `val` again whenever the magnitude's length fits the format's `u32` field.
pub fn bigint_to_etf(val: &BigInt) -> (r: Vec<u8>)
    ensures
        r@ == etf_bignum_bytes(bigint_le_bytes(*val).0, bigint_le_bytes(*val).1),
        bigint_le_bytes(*val).1.len() <= u32::MAX ==> etf_integer_wf(r@) && etf_integer_value(r@)
            == *val,
{
    let (negative, magnitude) = bigint_to_le_magnitude(val);
    let r = encode_etf_bignum(negative, magnitude.as_slice());
    proof {
        if magnitude@.len() <= u32::MAX {
            lemma_etf_bignum_roundtrip(negative, magnitude@);
        }
    }
    r
}

/// The big-endian bytes of a `u32` read back as that `u32`.
proof fn lemma_be_u32_roundtrip(n: u32)
    ensures
        be_u32(be_bytes_u32(n), 0) == n,
{
    let b = be_bytes_u32(n);
    assert(b[0] == n / 16777216 && b[1] == n / 65536 % 256 && b[2] == n / 256 % 256 && b[3] == n
        % 256);
    assert((n / 16777216) * 16777216 + (n / 65536 % 256) * 65536 + (n / 256 % 256) * 256 + n % 256
        == n) by (nonlinear_arith);
}

/// An ETF bignum parses back to the sign and magnitude it was built from:
/// decoding `encode_etf_bignum(negative, magnitude)` hands `BigInt::from_bytes_le`
/// exactly `negative` and `magnitude`. Holds for every magnitude whose length
/// fits the format's `u32` length field.
pub proof fn lemma_etf_bignum_roundtrip(negative: bool, magnitude: Seq<u8>)
    requires
        magnitude.len() <= u32::MAX,
    ensures
        etf_integer_wf(etf_bignum_bytes(negative, magnitude)),
        etf_integer_value(etf_bignum_bytes(negative, magnitude)) == bigint_of_le_magnitude(
            negative,
            magnitude,
        ),
{
    let bytes = etf_bignum_bytes(negative, magnitude);
    if magnitude.len() <= 255 {
        assert(bytes.subrange(4, 4 + magnitude.len() as int) =~= magnitude);
    } else {
        let n = magnitude.len() as u32;
        lemma_be_u32_roundtrip(n);
        let head = seq![ETF_VERSION, LARGE_BIG_EXT] + be_bytes_u32(n) + seq![if negative { 1u8 } else { 0u8 }];
        assert(bytes == head + magnitude);
        assert(be_u32(bytes, 2) == be_u32(be_bytes_u32(n), 0));
        assert(bytes.subrange(7, 7 + magnitude.len() as int) =~= magnitude);
    }
}

/// The bytes of an emitted bignum, field by field: the version byte; then,
/// for a magnitude of at most 255 bytes, `SMALL_BIG_EXT`, the length as one
/// byte and the sign byte, and for a longer one `LARGE_BIG_EXT`, the length
/// as four big-endian bytes and the sign byte; then the magnitude. The sign
/// byte is `1` for a negative value and `0` otherwise, whatever the length.
pub proof fn lemma_bignum_encoding_layout(negative: bool, magnitude: Seq<u8>)
    requires
        magnitude.len() <= u32::MAX,
    ensures
        ({
            let b = etf_bignum_bytes(negative, magnitude);
            let sign: u8 = if negative {
                1
            } else {
                0
            };
            &&& b[0] == 131
            &&& magnitude.len() <= 255 ==> {
                &&& b.len() == 4 + magnitude.len()
                &&& b[1] == 110
                &&& b[2] as int == magnitude.len()
                &&& b[3] == sign
                &&& b.subrange(4, b.len() as int) == magnitude
            }
            &&& magnitude.len() > 255 ==> {
                &&& b.len() == 7 + magnitude.len()
                &&& b[1] == 111
                &&& b[2] * 16777216 + b[3] * 65536 + b[4] * 256 + b[5] == magnitude.len()
                &&& b[6] == sign
                &&& b.subrange(7, b.len() as int) == magnitude
            }
        }),
{
    let b = etf_bignum_bytes(negative, magnitude);
    if magnitude.len() <= 255 {
        assert(b.subrange(4, b.len() as int) =~= magnitude);
    } else {
        let n = magnitude.len() as u32;
        lemma_be_u32_roundtrip(n);
        assert(b.subrange(7, b.len() as int) =~= magnitude);
        assert(be_u32(be_bytes_u32(n), 0) == be_u32(b, 2));
    }
}

/// A `SMALL_BIG_EXT` bignum is read as its magnitude with the sign its sign
/// byte gives: `0` is non-negative, anything else negative, whatever the
/// magnitude's length.
pub proof fn lemma_small_big_decoding(b: Seq<u8>, sign_byte: u8, magnitude: Seq<u8>)
    requires
        magnitude.len() <= 255,
        b == seq![131u8, 110u8, magnitude.len() as u8, sign_byte] + magnitude,
    ensures
        etf_integer_wf(b),
        etf_integer_value(b) == bigint_of_le_magnitude(sign_byte != 0, magnitude),
{
    assert(b.subrange(4, 4 + magnitude.len() as int) =~= magnitude);
}

/// A `LARGE_BIG_EXT` bignum is read as its magnitude, whose length the four
/// big-endian bytes after the tag give, with the sign its sign byte gives:
/// `0` is non-negative, anything else negative.
pub proof fn lemma_large_big_decoding(
    b: Seq<u8>,
    len_bytes: Seq<u8>,
    sign_byte: u8,
    magnitude: Seq<u8>,
)
    requires
        len_bytes.len() == 4,
        len_bytes[0] * 16777216 + len_bytes[1] * 65536 + len_bytes[2] * 256 + len_bytes[3]
            == magnitude.len(),
        b == seq![131u8, 111u8] + len_bytes + seq![sign_byte] + magnitude,
    ensures
        etf_integer_wf(b),
        etf_integer_value(b) == bigint_of_le_magnitude(sign_byte != 0, magnitude),
{
    assert(be_u32(b, 2) == magnitude.len());
    assert(b.subrange(7, 7 + magnitude.len() as int) =~= magnitude);
}

/// An `INTEGER_EXT` term is read as the `i32` its four big-endian bytes
/// encode in two's complement: for every `x`, the bytes of `x` (its value
/// modulo 2^32, most significant first) decode to `BigInt::from(x)`.
pub proof fn lemma_integer_ext_decoding(x: i32, b: Seq<u8>)
    requires
        b.len() == 6,
        b[0] == 131,
        b[1] == 98,
        b[2] * 16777216 + b[3] * 65536 + b[4] * 256 + b[5] == (if x >= 0 {
            x as int
        } else {
            x + 0x1_0000_0000
        }),
    ensures
        etf_integer_wf(b),
        etf_integer_value(b) == bigint_of_i32(x),
{
    assert(be_i32(b, 2) == x as int);
}

/// A `SMALL_INTEGER_EXT` term is read as its one unsigned byte.
pub proof fn lemma_small_integer_decoding(v: u8)
    ensures
        etf_integer_wf(seq![131u8, 97u8, v]),
        etf_integer_value(seq![131u8, 97u8, v]) == bigint_of_u8(v),
{
}

/// Whether `bytes` is a well-formed version-prefixed ETF integer, long enough
/// for every field its tag announces (what [`etf_integer_to_bigint`] needs).
pub fn is_etf_integer(bytes: &[u8]) -> (r: bool)
    ensures
        r == etf_integer_wf(bytes@),
{
    if bytes.len() < 2 || bytes[0] != ETF_VERSION {
        return false;
    }
    let tag = bytes[1];
    if tag == SMALL_INTEGER_EXT {
        bytes.len() >= 3
    } else if tag == INTEGER_EXT {
        bytes.len() >= 6
    } else if tag == SMALL_BIG_EXT {
        bytes.len() >= 4 && bytes.len() - 4 >= bytes[2] as usize
    } else if tag == LARGE_BIG_EXT {
        bytes.len() >= 7 && (bytes.len() - 7) as u64 >= read_be_u32(bytes, 2) as u64
    } else {
        false
    }
}

/// How an arbitrary-precision integer is handed to the BEAM: through
/// `enif_make_int64` when it fits an `i64`, else through `enif_make_uint64`
/// when it fits a `u64`, else as an ETF bignum parsed back with
/// `enif_binary_to_term`.
pub enum IntegerRepr {
    Signed(i64),
    Unsigned(u64),
    Bignum(Vec<u8>),
}

/// What `i64::try_from(&val)` gives: the value when it fits an `i64`.
pub uninterp spec fn bigint_i64_value(val: BigInt) -> Option<i64>;

/// What `u64::try_from(&val)` gives: the value when it fits a `u64`.
pub uninterp spec fn bigint_u64_value(val: BigInt) -> Option<u64>;

/// `i64::try_from(&BigInt)`: the value when it fits an `i64`.
#[verifier::external_body]
fn bigint_to_i64(val: &BigInt) -> (r: Option<i64>)
    ensures
        r == bigint_i64_value(*val),
{
    i64::try_from(val).ok()
}

/// `u64::try_from(&BigInt)`: the value when it fits a `u64`.
#[verifier::external_body]
fn bigint_to_u64(val: &BigInt) -> (r: Option<u64>)
    ensures
        r == bigint_u64_value(*val),
{
    u64::try_from(val).ok()
}

/// Choose the representation for `val`: the `i64` fast path first, then the
/// `u64` one, and only a value fitting neither becomes an ETF bignum.
pub fn integer_repr_of_bigint(val: &BigInt) -> (r: IntegerRepr)
    ensures
        bigint_i64_value(*val) matches Some(i) ==> r == IntegerRepr::Signed(i),
        bigint_i64_value(*val) is None && bigint_u64_value(*val) is Some ==> r
            == IntegerRepr::Unsigned(bigint_u64_value(*val)->0),
        bigint_i64_value(*val) is None && bigint_u64_value(*val) is None ==> (r matches IntegerRepr::Bignum(b)
            && b@ == etf_bignum_bytes(bigint_le_bytes(*val).0, bigint_le_bytes(*val).1)),
{
    if let Some(i) = bigint_to_i64(val) {
        return IntegerRepr::Signed(i);
    }
    if let Some(u) = bigint_to_u64(val) {
        return IntegerRepr::Unsigned(u);
    }
    IntegerRepr::Bignum(bigint_to_etf(val))
}

} // verus!
