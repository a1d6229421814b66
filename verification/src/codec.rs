//! Conversions between Erlang terms and native Rust values — the decisions
//! the codecs make once the BEAM has answered: which error a failed decode
//! reports, how an integer read as 64 bits narrows to a smaller Rust integer,
//! when a pair of atoms is a boolean, when bytes are a string, and when a
//! list or tuple has the right shape.
//!
//! A failed decode on a NIF argument becomes `badarg` on the way in; a failed
//! encode on a NIF return becomes `badret` on the way out.
use vstd::prelude::*;

use vstd::string::StringSliceAdditionalSpecFns;
use vstd::utf8::{encode_utf8, valid_utf8};

verus! {

/// Error returned by term type conversion operations.
#[derive(Debug, Clone, Copy, PartialEq, Eq, Structural)]
pub enum CodecError {
    /// The term was not the expected type.
    WrongType,
    /// An integer term did not fit the requested Rust integer type.
    IntegerOverflow,
    /// A float value could not be represented as an Erlang float because it
    /// is not finite (NaN or infinity) — an encode-side failure.
    NotFinite,
    /// A finite float term fell outside the finite range of the requested
    /// Rust float type (only `f32`, on decode).
    FloatRange,
    /// A binary's bytes were not valid UTF-8, or a list was not a valid
    /// string, when decoding to a Rust `String`.
    NotUtf8,
    /// An Erlang tuple's arity did not match the arity of the Rust tuple type
    /// it was being decoded into.
    WrongArity,
    /// The term's type code is one this build does not recognize — a term
    /// type added by a newer OTP.
    UnknownTermType,
}

/// The human-readable description of each codec error.
pub open spec fn codec_error_message(e: CodecError) -> Seq<char> {
    match e {
        CodecError::WrongType => "wrong term type"@,
        CodecError::IntegerOverflow => "integer overflow"@,
        CodecError::NotFinite => "float is not finite"@,
        CodecError::FloatRange => "float out of range"@,
        CodecError::NotUtf8 => "not valid UTF-8"@,
        CodecError::WrongArity => "wrong tuple arity"@,
        CodecError::UnknownTermType => "unknown term type"@,
    }
}

impl CodecError {
    /// The human-readable description of this error (what `Display` prints).
    pub fn message(&self) -> (r: &'static str)
        ensures
            r@ == codec_error_message(*self),
    {
        match self {
            CodecError::WrongType => "wrong term type",
            CodecError::IntegerOverflow => "integer overflow",
            CodecError::NotFinite => "float is not finite",
            CodecError::FloatRange => "float out of range",
            CodecError::NotUtf8 => "not valid UTF-8",
            CodecError::WrongArity => "wrong tuple arity",
            CodecError::UnknownTermType => "unknown term type",
        }
    }
}

/// The result of narrowing an integer read as `i64` (`None` when the term
/// did not fit the 64-bit read) into the range `[min, max]`.
pub open spec fn narrowed_signed(read: Option<i64>, min: int, max: int) -> Result<int, CodecError> {
    match read {
        None => Err(CodecError::IntegerOverflow),
        Some(v) => if min <= v <= max {
            Ok(v as int)
        } else {
            Err(CodecError::IntegerOverflow)
        },
    }
}

/// The result of narrowing an integer read as `u64` (`None` when the term
/// did not fit the 64-bit read, negatives included) to at most `max`.
pub open spec fn narrowed_unsigned(read: Option<u64>, max: int) -> Result<int, CodecError> {
    match read {
        None => Err(CodecError::IntegerOverflow),
        Some(v) => if v <= max {
            Ok(v as int)
        } else {
            Err(CodecError::IntegerOverflow)
        },
    }
}

/// The value carried by a narrowing result, as a mathematical integer.
pub open spec fn as_int_result<T>(r: Result<T, CodecError>, f: spec_fn(T) -> int) -> Result<
    int,
    CodecError,
> {
    match r {
        Ok(v) => Ok(f(v)),
        Err(e) => Err(e),
    }
}

/// Decode to `i8`: the integer read as `i64` must lie in `i8`'s range.
pub fn i8_from_i64(read: Option<i64>) -> (r: Result<i8, CodecError>)
    ensures
        read is None ==> r == Err::<i8, CodecError>(CodecError::IntegerOverflow),
        read matches Some(v) ==> (i8::MIN <= v && v <= i8::MAX ==> r == Ok::<i8, CodecError>(v as i8)),
        read matches Some(v) ==> (v < i8::MIN || v > i8::MAX ==> r == Err::<i8, CodecError>(
            CodecError::IntegerOverflow,
        )),
        as_int_result(r, |v: i8| v as int) == narrowed_signed(read, i8::MIN as int, i8::MAX as int),
{
    match read {
        None => Err(CodecError::IntegerOverflow),
        Some(v) => if i8::MIN as i64 <= v && v <= i8::MAX as i64 {
            Ok(v as i8)
        } else {
            Err(CodecError::IntegerOverflow)
        },
    }
}

/// Decode to `i16`: the integer read as `i64` must lie in `i16`'s range.
pub fn i16_from_i64(read: Option<i64>) -> (r: Result<i16, CodecError>)
    ensures
        read is None ==> r == Err::<i16, CodecError>(CodecError::IntegerOverflow),
        read matches Some(v) ==> (i16::MIN <= v && v <= i16::MAX ==> r == Ok::<i16, CodecError>(v as i16)),
        read matches Some(v) ==> (v < i16::MIN || v > i16::MAX ==> r == Err::<i16, CodecError>(
            CodecError::IntegerOverflow,
        )),
        as_int_result(r, |v: i16| v as int) == narrowed_signed(
            read,
            i16::MIN as int,
            i16::MAX as int,
        ),
{
    match read {
        None => Err(CodecError::IntegerOverflow),
        Some(v) => if i16::MIN as i64 <= v && v <= i16::MAX as i64 {
            Ok(v as i16)
        } else {
            Err(CodecError::IntegerOverflow)
        },
    }
}

/// Decode to `i32`: the integer read as `i64` must lie in `i32`'s range.
pub fn i32_from_i64(read: Option<i64>) -> (r: Result<i32, CodecError>)
    ensures
        read is None ==> r == Err::<i32, CodecError>(CodecError::IntegerOverflow),
        read matches Some(v) ==> (i32::MIN <= v && v <= i32::MAX ==> r == Ok::<i32, CodecError>(v as i32)),
        read matches Some(v) ==> (v < i32::MIN || v > i32::MAX ==> r == Err::<i32, CodecError>(
            CodecError::IntegerOverflow,
        )),
        as_int_result(r, |v: i32| v as int) == narrowed_signed(
            read,
            i32::MIN as int,
            i32::MAX as int,
        ),
{
    match read {
        None => Err(CodecError::IntegerOverflow),
        Some(v) => if i32::MIN as i64 <= v && v <= i32::MAX as i64 {
            Ok(v as i32)
        } else {
            Err(CodecError::IntegerOverflow)
        },
    }
}

/// Decode to `i64`: the only failure is a bignum too wide for the 64-bit read.
pub fn i64_from_i64(read: Option<i64>) -> (r: Result<i64, CodecError>)
    ensures
        read is None ==> r == Err::<i64, CodecError>(CodecError::IntegerOverflow),
        read matches Some(v) ==> (i64::MIN <= v && v <= i64::MAX ==> r == Ok::<i64, CodecError>(v as i64)),
        read matches Some(v) ==> (v < i64::MIN || v > i64::MAX ==> r == Err::<i64, CodecError>(
            CodecError::IntegerOverflow,
        )),
        as_int_result(r, |v: i64| v as int) == narrowed_signed(
            read,
            i64::MIN as int,
            i64::MAX as int,
        ),
{
    match read {
        None => Err(CodecError::IntegerOverflow),
        Some(v) => Ok(v),
    }
}

/// Decode to `isize`: the integer read as `i64` must lie in `isize`'s range.
pub fn isize_from_i64(read: Option<i64>) -> (r: Result<isize, CodecError>)
    ensures
        read is None ==> r == Err::<isize, CodecError>(CodecError::IntegerOverflow),
        read matches Some(v) ==> (isize::MIN <= v && v <= isize::MAX ==> r == Ok::<isize, CodecError>(v as isize)),
        read matches Some(v) ==> (v < isize::MIN || v > isize::MAX ==> r == Err::<isize, CodecError>(
            CodecError::IntegerOverflow,
        )),
        as_int_result(r, |v: isize| v as int) == narrowed_signed(
            read,
            isize::MIN as int,
            isize::MAX as int,
        ),
{
    match read {
        None => Err(CodecError::IntegerOverflow),
        Some(v) => if isize::MIN as i64 <= v && v <= isize::MAX as i64 {
            Ok(v as isize)
        } else {
            Err(CodecError::IntegerOverflow)
        },
    }
}

/// Decode to `u8`: the integer read as `u64` must not exceed `u8::MAX`.
pub fn u8_from_u64(read: Option<u64>) -> (r: Result<u8, CodecError>)
    ensures
        read is None ==> r == Err::<u8, CodecError>(CodecError::IntegerOverflow),
        read matches Some(v) ==> (v <= u8::MAX ==> r == Ok::<u8, CodecError>(v as u8)),
        read matches Some(v) ==> (v > u8::MAX ==> r == Err::<u8, CodecError>(
            CodecError::IntegerOverflow,
        )),
        as_int_result(r, |v: u8| v as int) == narrowed_unsigned(read, u8::MAX as int),
{
    match read {
        None => Err(CodecError::IntegerOverflow),
        Some(v) => if v <= u8::MAX as u64 {
            Ok(v as u8)
        } else {
            Err(CodecError::IntegerOverflow)
        },
    }
}

/// Decode to `u16`: the integer read as `u64` must not exceed `u16::MAX`.
pub fn u16_from_u64(read: Option<u64>) -> (r: Result<u16, CodecError>)
    ensures
        read is None ==> r == Err::<u16, CodecError>(CodecError::IntegerOverflow),
        read matches Some(v) ==> (v <= u16::MAX ==> r == Ok::<u16, CodecError>(v as u16)),
        read matches Some(v) ==> (v > u16::MAX ==> r == Err::<u16, CodecError>(
            CodecError::IntegerOverflow,
        )),
        as_int_result(r, |v: u16| v as int) == narrowed_unsigned(read, u16::MAX as int),
{
    match read {
        None => Err(CodecError::IntegerOverflow),
        Some(v) => if v <= u16::MAX as u64 {
            Ok(v as u16)
        } else {
            Err(CodecError::IntegerOverflow)
        },
    }
}

/// Decode to `u32`: the integer read as `u64` must not exceed `u32::MAX`.
pub fn u32_from_u64(read: Option<u64>) -> (r: Result<u32, CodecError>)
    ensures
        read is None ==> r == Err::<u32, CodecError>(CodecError::IntegerOverflow),
        read matches Some(v) ==> (v <= u32::MAX ==> r == Ok::<u32, CodecError>(v as u32)),
        read matches Some(v) ==> (v > u32::MAX ==> r == Err::<u32, CodecError>(
            CodecError::IntegerOverflow,
        )),
        as_int_result(r, |v: u32| v as int) == narrowed_unsigned(read, u32::MAX as int),
{
    match read {
        None => Err(CodecError::IntegerOverflow),
        Some(v) => if v <= u32::MAX as u64 {
            Ok(v as u32)
        } else {
            Err(CodecError::IntegerOverflow)
        },
    }
}

/// Decode to `u64`: fails on a negative value or a bignum too wide for the
/// 64-bit read.
pub fn u64_from_u64(read: Option<u64>) -> (r: Result<u64, CodecError>)
    ensures
        read is None ==> r == Err::<u64, CodecError>(CodecError::IntegerOverflow),
        read matches Some(v) ==> (v <= u64::MAX ==> r == Ok::<u64, CodecError>(v as u64)),
        read matches Some(v) ==> (v > u64::MAX ==> r == Err::<u64, CodecError>(
            CodecError::IntegerOverflow,
        )),
        as_int_result(r, |v: u64| v as int) == narrowed_unsigned(read, u64::MAX as int),
{
    match read {
        None => Err(CodecError::IntegerOverflow),
        Some(v) => Ok(v),
    }
}

/// Decode to `usize`: the integer read as `u64` must not exceed `usize::MAX`.
pub fn usize_from_u64(read: Option<u64>) -> (r: Result<usize, CodecError>)
    ensures
        read is None ==> r == Err::<usize, CodecError>(CodecError::IntegerOverflow),
        read matches Some(v) ==> (v <= usize::MAX ==> r == Ok::<usize, CodecError>(v as usize)),
        read matches Some(v) ==> (v > usize::MAX ==> r == Err::<usize, CodecError>(
            CodecError::IntegerOverflow,
        )),
        as_int_result(r, |v: usize| v as int) == narrowed_unsigned(read, usize::MAX as int),
{
    match read {
        None => Err(CodecError::IntegerOverflow),
        Some(v) => if v <= usize::MAX as u64 {
            Ok(v as usize)
        } else {
            Err(CodecError::IntegerOverflow)
        },
    }
}

/// Decode to `bool`: the term must be an atom, and exactly the atom `true`
/// or the atom `false`; every other term is the wrong type.
///
/// `is_atom` is whether the term is an atom at all; `is_true`/`is_false`
/// whether it is identical to the atom `true`/`false`.
pub fn bool_from_atom(is_atom: bool, is_true: bool, is_false: bool) -> (r: Result<
    bool,
    CodecError,
>)
    ensures
        r == decoded_bool(is_atom, is_true, is_false),
{
    if !is_atom {
        Err(CodecError::WrongType)
    } else if is_true {
        Ok(true)
    } else if is_false {
        Ok(false)
    } else {
        Err(CodecError::WrongType)
    }
}

/// The name of the atom that encodes `b`.
pub fn bool_atom_name(b: bool) -> (r: &'static str)
    ensures
        r@ == (if b {
            "true"@
        } else {
            "false"@
        }),
{
    if b {
        "true"
    } else {
        "false"
    }
}

/// Whether an Erlang tuple of `len` elements decodes into a Rust tuple of
/// `arity` elements: anything but an exact match is `WrongArity`.
pub fn check_arity(len: usize, arity: usize) -> (r: Result<(), CodecError>)
    ensures
        r == (if len == arity {
            Ok(())
        } else {
            Err(CodecError::WrongArity)
        }),
{
    if len != arity {
        Err(CodecError::WrongArity)
    } else {
        Ok(())
    }
}

/// Finish decoding a list into a `Vec`: the elements decoded from the heads
/// are kept only if the walk ended on `[]` (a proper list); an improper tail
/// is `WrongType`.
pub fn finish_list<T>(elements: Vec<T>, tail_is_empty_list: bool) -> (r: Result<
    Vec<T>,
    CodecError,
>)
    ensures
        tail_is_empty_list ==> (r matches Ok(v) && v@ == elements@),
        !tail_is_empty_list ==> r == Err::<Vec<T>, CodecError>(CodecError::WrongType),
{
    if tail_is_empty_list {
        Ok(elements)
    } else {
        Err(CodecError::WrongType)
    }
}

/// `std::str::from_utf8`: the string when `bytes` are valid UTF-8, `None`
/// otherwise; the string's bytes are exactly `bytes`.
#[verifier::external_body]
fn str_from_utf8(bytes: &[u8]) -> (r: Option<&str>)
    ensures
        r is Some <==> valid_utf8(bytes@),
        r matches Some(s) ==> s.spec_bytes() == bytes@,
{
    std::str::from_utf8(bytes).ok()
}

/// A binary's bytes as a string slice (`Binary::try_str`): the `&str` over
/// exactly those bytes when they are valid UTF-8, `None` otherwise.
pub fn utf8_str(bytes: &[u8]) -> (r: Option<&str>)
    ensures
        r is Some <==> valid_utf8(bytes@),
        r matches Some(s) ==> s.spec_bytes() == bytes@,
{
    str_from_utf8(bytes)
}

/// Decode a binary's bytes as a Rust `String`: valid UTF-8 is copied out;
/// anything else is `NotUtf8`.
pub fn string_from_utf8(bytes: &[u8]) -> (r: Result<String, CodecError>)
    ensures
        r is Ok <==> valid_utf8(bytes@),
        r matches Ok(s) ==> encode_utf8(s@) == bytes@,
        r is Err ==> r == Err::<String, CodecError>(CodecError::NotUtf8),
{
    match str_from_utf8(bytes) {
        Some(s) => Ok(s.to_owned()),
        None => Err(CodecError::NotUtf8),
    }
}

/// Decode a term to a Rust `String`, accepting either a binary (read as
/// UTF-8) or a charlist. `binary` holds the bytes when the term is a binary;
/// otherwise `charlist` says whether it is a list (`Some`) and what reading it
/// as a string gave (`None` when it is not a valid string). A term that is
/// neither is `WrongType`.
pub fn decode_string(binary: Option<&[u8]>, charlist: Option<Option<String>>) -> (r: Result<
    String,
    CodecError,
>)
    ensures
        binary matches Some(b) ==> {
            &&& (r is Ok <==> valid_utf8(b@))
            &&& (r matches Ok(s) ==> encode_utf8(s@) == b@)
            &&& (r is Err ==> r == Err::<String, CodecError>(CodecError::NotUtf8))
        },
        binary is None ==> match charlist {
            Some(Some(s)) => r matches Ok(t) && t@ == s@,
            Some(None) => r == Err::<String, CodecError>(CodecError::NotUtf8),
            None => r == Err::<String, CodecError>(CodecError::WrongType),
        },
{
    match binary {
        Some(b) => string_from_utf8(b),
        None => match charlist {
            Some(Some(s)) => Ok(s),
            Some(None) => Err(CodecError::NotUtf8),
            None => Err(CodecError::WrongType),
        },
    }
}

/// Decoding the atom that encoding a `bool` produces gives the `bool` back:
/// the atom named `true` decodes to `true`, the one named `false` to `false`.
pub proof fn lemma_bool_round_trip(b: bool)
    ensures
        ({
            let is_true = b;
            let is_false = !b;
            decoded_bool(true, is_true, is_false) == Ok::<bool, CodecError>(b)
        }),
{
}

/// Narrowing refuses every value outside the target's range: an `i64`
/// read below `min` or above `max` is `IntegerOverflow`, never a truncated
/// or wrapped value, and one inside the range is kept as it is.
pub proof fn lemma_signed_narrowing_checks_range(v: i64, min: int, max: int)
    ensures
        (v < min || v > max) ==> narrowed_signed(Some(v), min, max) == Err::<int, CodecError>(
            CodecError::IntegerOverflow,
        ),
        min <= v <= max ==> narrowed_signed(Some(v), min, max) == Ok::<int, CodecError>(v as int),
        narrowed_signed(None, min, max) == Err::<int, CodecError>(CodecError::IntegerOverflow),
{
}

/// Narrowing refuses every value above the target's maximum: a `u64` read
/// above `max` is `IntegerOverflow`, never its low bits, and one at most
/// `max` is kept as it is.
pub proof fn lemma_unsigned_narrowing_checks_range(v: u64, max: int)
    ensures
        v > max ==> narrowed_unsigned(Some(v), max) == Err::<int, CodecError>(
            CodecError::IntegerOverflow,
        ),
        v <= max ==> narrowed_unsigned(Some(v), max) == Ok::<int, CodecError>(v as int),
        narrowed_unsigned(None, max) == Err::<int, CodecError>(CodecError::IntegerOverflow),
{
}

/// A Rust signed integer encoded as an Erlang integer decodes back to
/// itself: encoding widens it to the `i64` of `enif_make_int64`, and the
/// `i64` read of that term, narrowed to the type's range `[min, max]`, is the
/// value it started from.
pub proof fn lemma_signed_round_trip(v: i64, min: int, max: int)
    requires
        min <= v <= max,
    ensures
        narrowed_signed(Some(v), min, max) == Ok::<int, CodecError>(v as int),
{
}

/// A Rust unsigned integer encoded as an Erlang integer decodes back to
/// itself: encoding widens it to the `u64` of `enif_make_uint64`, and the
/// `u64` read of that term, narrowed to the type's maximum, is the value it
/// started from.
pub proof fn lemma_unsigned_round_trip(v: u64, max: int)
    requires
        v <= max,
    ensures
        narrowed_unsigned(Some(v), max) == Ok::<int, CodecError>(v as int),
{
}

/// A string encoded as a binary (its UTF-8 bytes) decodes back to the same
/// string: the bytes are valid UTF-8, so decoding succeeds, and any string
/// whose UTF-8 bytes are those bytes is the original string.
pub proof fn lemma_string_round_trip(s: Seq<char>, decoded: Seq<char>)
    requires
        encode_utf8(decoded) == encode_utf8(s),
    ensures
        valid_utf8(encode_utf8(s)),
        decoded == s,
{
    vstd::utf8::encode_utf8_valid_utf8(s);
    vstd::utf8::encode_utf8_decode_utf8(s);
    vstd::utf8::encode_utf8_decode_utf8(decoded);
}

/// What decoding an atom to `bool` yields: `true` for the atom `true`,
/// `false` for the atom `false`, `WrongType` for every other term.
pub open spec fn decoded_bool(is_atom: bool, is_true: bool, is_false: bool) -> Result<
    bool,
    CodecError,
> {
    if is_atom && is_true {
        Ok(true)
    } else if is_atom && is_false {
        Ok(false)
    } else {
        Err(CodecError::WrongType)
    }
}

} // verus!
