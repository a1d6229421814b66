//! The concrete Erlang term types — one per BEAM type tag.
//!
//! Each type is a lazy, one-machine-word handle: construction is free and data
//! is read from the BEAM heap only on demand, through the env that produced the
//! term. Most carry their env's brand `'id` and so cannot escape the env that
//! produced them; the immediate types — [`Atom`], [`LocalPid`], [`LocalPort`] —
//! carry no brand ([`FreeTerm`]) and are valid in any env.
use vstd::prelude::*;

use core::marker::PhantomData;

use crate::codec::CodecError;
use vstd::std_specs::convert::FromSpecImpl;

verus! {

/// The raw machine word of a term (`ERL_NIF_TERM`).
pub type RawTerm = enif_ffi::Term;

/// The BEAM's non-value marker (`THE_NON_VALUE`), returned from a NIF whose
/// result raised.
pub const THE_NON_VALUE: RawTerm = 0;

/// The brand marker carried by every env-bound term: a zero-sized type that
/// is invariant over the lifetime `'id`, so two brands can never be unified
/// and a term cannot leak from the env that produced it.
pub type Invariant<'id> = PhantomData<&'id mut &'id ()>;

/// Seals the term traits: only the term types of this crate implement them.
pub trait Sealed {}

/// A BEAM term branded to the env `'id` that produced it: every term type
/// yields the raw machine word backing it.
pub trait Term<'id>: Sealed {
    /// The raw machine word backing this term.
    fn raw_term(self) -> RawTerm;
}

/// Env-portable terms — valid in *any* env, hence a term of every brand at
/// once: [`Atom`], [`LocalPid`] and [`LocalPort`], tagged immediates with no
/// heap data to outlive an env.
pub trait FreeTerm: for<'id> Term<'id> {}

/// A type whose underlying NIF term word is valid in environment `'a`.
pub trait AsNifTerm<'a>: Sealed {
    /// The underlying NIF term word.
    fn as_nif_term(&self) -> RawTerm;
}

/// The bare term word, carrying only the brand `'id`: no `enif_term_type`
/// call has been made and no data read off the BEAM heap.
#[derive(Clone, Copy)]
pub struct AnyTerm<'id> {
    raw_term: RawTerm,
    _id: Invariant<'id>,
}

impl<'id> View for AnyTerm<'id> {
    type V = RawTerm;

    closed spec fn view(&self) -> RawTerm {
        self.raw_term
    }
}

impl<'id> AnyTerm<'id> {
    /// Wrap a raw term word produced by the env of brand `'id`.
    pub fn wrap(raw_term: RawTerm) -> (r: Self)
        ensures
            r@ == raw_term,
    {
        AnyTerm { raw_term, _id: PhantomData }
    }
}

impl<'id> Sealed for AnyTerm<'id> {}

impl<'id> Term<'id> for AnyTerm<'id> {
    fn raw_term(self) -> (r: RawTerm)
        ensures
            r == self@,
    {
        self.raw_term
    }
}

impl<'id> AsNifTerm<'id> for AnyTerm<'id> {
    fn as_nif_term(&self) -> (r: RawTerm)
        ensures
            r == self@,
    {
        self.raw_term
    }
}

/// An Erlang integer. Arbitrary precision: small integers are tagged immediates, bignums live on the env heap.
#[derive(Clone, Copy)]
pub struct Integer<'id> {
    raw_term: RawTerm,
    _id: Invariant<'id>,
}

impl<'id> View for Integer<'id> {
    type V = RawTerm;

    closed spec fn view(&self) -> RawTerm {
        self.raw_term
    }
}

impl<'id> Integer<'id> {
    /// Rewrap a raw term word already known to be of this type.
    pub fn from_raw(raw_term: RawTerm) -> (r: Self)
        ensures
            r@ == raw_term,
    {
        Integer { raw_term, _id: PhantomData }
    }
}

impl<'id> Sealed for Integer<'id> {}

impl<'id> Term<'id> for Integer<'id> {
    fn raw_term(self) -> (r: RawTerm)
        ensures
            r == self@,
    {
        self.raw_term
    }
}

/// An Erlang float, always an IEEE 754 double.
#[derive(Clone, Copy)]
pub struct Float<'id> {
    raw_term: RawTerm,
    _id: Invariant<'id>,
}

impl<'id> View for Float<'id> {
    type V = RawTerm;

    closed spec fn view(&self) -> RawTerm {
        self.raw_term
    }
}

impl<'id> Float<'id> {
    /// Rewrap a raw term word already known to be of this type.
    pub fn from_raw(raw_term: RawTerm) -> (r: Self)
        ensures
            r@ == raw_term,
    {
        Float { raw_term, _id: PhantomData }
    }
}

impl<'id> Sealed for Float<'id> {}

impl<'id> Term<'id> for Float<'id> {
    fn raw_term(self) -> (r: RawTerm)
        ensures
            r == self@,
    {
        self.raw_term
    }
}

/// A byte-aligned binary (`enif_is_binary` returned true).
#[derive(Clone, Copy)]
pub struct Binary<'id> {
    raw_term: RawTerm,
    _id: Invariant<'id>,
}

impl<'id> View for Binary<'id> {
    type V = RawTerm;

    closed spec fn view(&self) -> RawTerm {
        self.raw_term
    }
}

impl<'id> Binary<'id> {
    /// Rewrap a raw term word already known to be of this type.
    pub fn from_raw(raw_term: RawTerm) -> (r: Self)
        ensures
            r@ == raw_term,
    {
        Binary { raw_term, _id: PhantomData }
    }
}

impl<'id> Sealed for Binary<'id> {}

impl<'id> Term<'id> for Binary<'id> {
    fn raw_term(self) -> (r: RawTerm)
        ensures
            r == self@,
    {
        self.raw_term
    }
}

/// An Erlang bitstring, byte-aligned or not (`enif_term_type` returned `Bitstring`).
#[derive(Clone, Copy)]
pub struct Bitstring<'id> {
    raw_term: RawTerm,
    _id: Invariant<'id>,
}

impl<'id> View for Bitstring<'id> {
    type V = RawTerm;

    closed spec fn view(&self) -> RawTerm {
        self.raw_term
    }
}

impl<'id> Bitstring<'id> {
    /// The bitstring handle over a raw word.
    pub closed spec fn spec_from_raw(raw_term: RawTerm) -> Self {
        Bitstring { raw_term, _id: PhantomData }
    }

    /// Rewrap a raw term word already known to be of this type.
    pub fn from_raw(raw_term: RawTerm) -> (r: Self)
        ensures
            r@ == raw_term,
            r == Self::spec_from_raw(raw_term),
    {
        Bitstring { raw_term, _id: PhantomData }
    }
}

impl<'id> Sealed for Bitstring<'id> {}

impl<'id> Term<'id> for Bitstring<'id> {
    fn raw_term(self) -> (r: RawTerm)
        ensures
            r == self@,
    {
        self.raw_term
    }
}

/// An Erlang list term, proper or improper, possibly empty.
#[derive(Clone, Copy)]
pub struct List<'id> {
    raw_term: RawTerm,
    _id: Invariant<'id>,
}

impl<'id> View for List<'id> {
    type V = RawTerm;

    closed spec fn view(&self) -> RawTerm {
        self.raw_term
    }
}

impl<'id> List<'id> {
    /// Rewrap a raw term word already known to be of this type.
    pub fn from_raw(raw_term: RawTerm) -> (r: Self)
        ensures
            r@ == raw_term,
    {
        List { raw_term, _id: PhantomData }
    }
}

impl<'id> Sealed for List<'id> {}

impl<'id> Term<'id> for List<'id> {
    fn raw_term(self) -> (r: RawTerm)
        ensures
            r == self@,
    {
        self.raw_term
    }
}

/// An Erlang tuple.
#[derive(Clone, Copy)]
pub struct Tuple<'id> {
    raw_term: RawTerm,
    _id: Invariant<'id>,
}

impl<'id> View for Tuple<'id> {
    type V = RawTerm;

    closed spec fn view(&self) -> RawTerm {
        self.raw_term
    }
}

impl<'id> Tuple<'id> {
    /// Rewrap a raw term word already known to be of this type.
    pub fn from_raw(raw_term: RawTerm) -> (r: Self)
        ensures
            r@ == raw_term,
    {
        Tuple { raw_term, _id: PhantomData }
    }
}

impl<'id> Sealed for Tuple<'id> {}

impl<'id> Term<'id> for Tuple<'id> {
    fn raw_term(self) -> (r: RawTerm)
        ensures
            r == self@,
    {
        self.raw_term
    }
}

/// An Erlang map. Immutable: every mutation yields a new map.
#[derive(Clone, Copy)]
pub struct MapTerm<'id> {
    raw_term: RawTerm,
    _id: Invariant<'id>,
}

impl<'id> View for MapTerm<'id> {
    type V = RawTerm;

    closed spec fn view(&self) -> RawTerm {
        self.raw_term
    }
}

impl<'id> MapTerm<'id> {
    /// Rewrap a raw term word already known to be of this type.
    pub fn from_raw(raw_term: RawTerm) -> (r: Self)
        ensures
            r@ == raw_term,
    {
        MapTerm { raw_term, _id: PhantomData }
    }
}

impl<'id> Sealed for MapTerm<'id> {}

impl<'id> Term<'id> for MapTerm<'id> {
    fn raw_term(self) -> (r: RawTerm)
        ensures
            r == self@,
    {
        self.raw_term
    }
}

/// An Erlang process identifier whose locality is not yet established.
#[derive(Clone, Copy)]
pub struct Pid<'id> {
    raw_term: RawTerm,
    _id: Invariant<'id>,
}

impl<'id> View for Pid<'id> {
    type V = RawTerm;

    closed spec fn view(&self) -> RawTerm {
        self.raw_term
    }
}

impl<'id> Pid<'id> {
    /// Rewrap a raw term word already known to be of this type.
    pub fn from_raw(raw_term: RawTerm) -> (r: Self)
        ensures
            r@ == raw_term,
    {
        Pid { raw_term, _id: PhantomData }
    }
}

impl<'id> Sealed for Pid<'id> {}

impl<'id> Term<'id> for Pid<'id> {
    fn raw_term(self) -> (r: RawTerm)
        ensures
            r == self@,
    {
        self.raw_term
    }
}

/// An Erlang port identifier whose locality is not yet established.
#[derive(Clone, Copy)]
pub struct Port<'id> {
    raw_term: RawTerm,
    _id: Invariant<'id>,
}

impl<'id> View for Port<'id> {
    type V = RawTerm;

    closed spec fn view(&self) -> RawTerm {
        self.raw_term
    }
}

impl<'id> Port<'id> {
    /// Rewrap a raw term word already known to be of this type.
    pub fn from_raw(raw_term: RawTerm) -> (r: Self)
        ensures
            r@ == raw_term,
    {
        Port { raw_term, _id: PhantomData }
    }
}

impl<'id> Sealed for Port<'id> {}

impl<'id> Term<'id> for Port<'id> {
    fn raw_term(self) -> (r: RawTerm)
        ensures
            r == self@,
    {
        self.raw_term
    }
}

/// An Erlang reference.
#[derive(Clone, Copy)]
pub struct Reference<'id> {
    raw_term: RawTerm,
    _id: Invariant<'id>,
}

impl<'id> View for Reference<'id> {
    type V = RawTerm;

    closed spec fn view(&self) -> RawTerm {
        self.raw_term
    }
}

impl<'id> Reference<'id> {
    /// Rewrap a raw term word already known to be of this type.
    pub fn from_raw(raw_term: RawTerm) -> (r: Self)
        ensures
            r@ == raw_term,
    {
        Reference { raw_term, _id: PhantomData }
    }
}

impl<'id> Sealed for Reference<'id> {}

impl<'id> Term<'id> for Reference<'id> {
    fn raw_term(self) -> (r: RawTerm)
        ensures
            r == self@,
    {
        self.raw_term
    }
}

/// An Erlang fun.
#[derive(Clone, Copy)]
pub struct Fun<'id> {
    raw_term: RawTerm,
    _id: Invariant<'id>,
}

impl<'id> View for Fun<'id> {
    type V = RawTerm;

    closed spec fn view(&self) -> RawTerm {
        self.raw_term
    }
}

impl<'id> Fun<'id> {
    /// Rewrap a raw term word already known to be of this type.
    pub fn from_raw(raw_term: RawTerm) -> (r: Self)
        ensures
            r@ == raw_term,
    {
        Fun { raw_term, _id: PhantomData }
    }
}

impl<'id> Sealed for Fun<'id> {}

impl<'id> Term<'id> for Fun<'id> {
    fn raw_term(self) -> (r: RawTerm)
        ensures
            r == self@,
    {
        self.raw_term
    }
}

/// An Erlang atom: a tagged immediate indexing the global atom table, which never shrinks, so an atom is valid in any env.
#[derive(Clone, Copy)]
pub struct Atom {
    term: RawTerm,
}

impl View for Atom {
    type V = RawTerm;

    closed spec fn view(&self) -> RawTerm {
        self.term
    }
}

impl Atom {
    /// Rewrap a raw term word already known to be of this type.
    pub fn from_raw(raw_term: RawTerm) -> (r: Self)
        ensures
            r@ == raw_term,
    {
        Atom { term: raw_term }
    }
}

impl Sealed for Atom {}

impl<'id> Term<'id> for Atom {
    fn raw_term(self) -> (r: RawTerm)
        ensures
            r == self@,
    {
        self.term
    }
}

impl FreeTerm for Atom {}

/// A node-local process identifier: an immediate with no heap pointer, valid in any env.
#[derive(Clone, Copy)]
pub struct LocalPid {
    pid: RawTerm,
}

impl View for LocalPid {
    type V = RawTerm;

    closed spec fn view(&self) -> RawTerm {
        self.pid
    }
}

impl LocalPid {
    /// Rewrap a raw term word already known to be of this type.
    pub fn from_raw(raw_term: RawTerm) -> (r: Self)
        ensures
            r@ == raw_term,
    {
        LocalPid { pid: raw_term }
    }
}

impl Sealed for LocalPid {}

impl<'id> Term<'id> for LocalPid {
    fn raw_term(self) -> (r: RawTerm)
        ensures
            r == self@,
    {
        self.pid
    }
}

impl FreeTerm for LocalPid {}

/// A node-local port identifier: an immediate with no heap pointer, valid in any env.
#[derive(Clone, Copy)]
pub struct LocalPort {
    port: RawTerm,
}

impl View for LocalPort {
    type V = RawTerm;

    closed spec fn view(&self) -> RawTerm {
        self.port
    }
}

impl LocalPort {
    /// Rewrap a raw term word already known to be of this type.
    pub fn from_raw(raw_term: RawTerm) -> (r: Self)
        ensures
            r@ == raw_term,
    {
        LocalPort { port: raw_term }
    }
}

impl Sealed for LocalPort {}

impl<'id> Term<'id> for LocalPort {
    fn raw_term(self) -> (r: RawTerm)
        ensures
            r == self@,
    {
        self.port
    }
}

impl FreeTerm for LocalPort {}

impl<'id> AsNifTerm<'id> for Atom {
    fn as_nif_term(&self) -> (r: RawTerm)
        ensures
            r == self@,
    {
        self.term
    }
}


/// The canonical term types `enif_term_type` distinguishes. Byte-aligned
/// binaries and sub-byte bitstrings share [`Bitstring`](TermType::Bitstring).
#[derive(Clone, Copy, PartialEq, Eq, Debug, Structural)]
pub enum TermType {
    Atom,
    Bitstring,
    Float,
    Fun,
    Integer,
    List,
    MapTerm,
    Pid,
    Port,
    Reference,
    Tuple,
}

/// The term type an `enif_term_type` code denotes: `1..=11` in the order
/// atom, bitstring, float, fun, integer, list, map, pid, port, reference,
/// tuple; `None` for any other code (a type from a newer OTP).
pub open spec fn term_type_of_code(code: i32) -> Option<TermType> {
    if code == 1 {
        Some(TermType::Atom)
    } else if code == 2 {
        Some(TermType::Bitstring)
    } else if code == 3 {
        Some(TermType::Float)
    } else if code == 4 {
        Some(TermType::Fun)
    } else if code == 5 {
        Some(TermType::Integer)
    } else if code == 6 {
        Some(TermType::List)
    } else if code == 7 {
        Some(TermType::MapTerm)
    } else if code == 8 {
        Some(TermType::Pid)
    } else if code == 9 {
        Some(TermType::Port)
    } else if code == 10 {
        Some(TermType::Reference)
    } else if code == 11 {
        Some(TermType::Tuple)
    } else {
        None
    }
}

/// The `enif_term_type` codes of erl_nif (`ERL_NIF_TERM_TYPE_*`): atom 1,
/// bitstring 2, float 3, fun 4, integer 5, list 6, map 7, pid 8, port 9,
/// reference 10, tuple 11. No other code names a type this build knows.
pub proof fn lemma_term_type_codes(code: i32)
    ensures
        term_type_of_code(1) == Some(TermType::Atom),
        term_type_of_code(2) == Some(TermType::Bitstring),
        term_type_of_code(3) == Some(TermType::Float),
        term_type_of_code(4) == Some(TermType::Fun),
        term_type_of_code(5) == Some(TermType::Integer),
        term_type_of_code(6) == Some(TermType::List),
        term_type_of_code(7) == Some(TermType::MapTerm),
        term_type_of_code(8) == Some(TermType::Pid),
        term_type_of_code(9) == Some(TermType::Port),
        term_type_of_code(10) == Some(TermType::Reference),
        term_type_of_code(11) == Some(TermType::Tuple),
        (code < 1 || code > 11) ==> term_type_of_code(code) is None,
{
}

/// Distinct codes name distinct types: no two `enif_term_type` codes
/// resolve to the same variant.
pub proof fn lemma_term_type_codes_distinct(c1: i32, c2: i32)
    requires
        term_type_of_code(c1) is Some,
        term_type_of_code(c1) == term_type_of_code(c2),
    ensures
        c1 == c2,
{
}

/// `enif_ffi::TermType::from_raw`: maps a raw `enif_term_type` code to its
/// variant — the codes `1..=11` in declaration order — and any other code to
/// `None`.
#[verifier::external_body]
fn term_type_from_code(code: i32) -> (r: Option<TermType>)
    ensures
        r == term_type_of_code(code),
{
    match enif_ffi::TermType::from_raw(code) {
        Some(enif_ffi::TermType::Atom) => Some(TermType::Atom),
        Some(enif_ffi::TermType::Bitstring) => Some(TermType::Bitstring),
        Some(enif_ffi::TermType::Float) => Some(TermType::Float),
        Some(enif_ffi::TermType::Fun) => Some(TermType::Fun),
        Some(enif_ffi::TermType::Integer) => Some(TermType::Integer),
        Some(enif_ffi::TermType::List) => Some(TermType::List),
        Some(enif_ffi::TermType::Map) => Some(TermType::MapTerm),
        Some(enif_ffi::TermType::Pid) => Some(TermType::Pid),
        Some(enif_ffi::TermType::Port) => Some(TermType::Port),
        Some(enif_ffi::TermType::Reference) => Some(TermType::Reference),
        Some(enif_ffi::TermType::Tuple) => Some(TermType::Tuple),
        None => None,
    }
}

impl TermType {
    /// The term type for an `enif_term_type` code, `None` for a code this
    /// build does not recognize.
    pub fn from_code(code: i32) -> (r: Option<TermType>)
        ensures
            r == term_type_of_code(code),
    {
        term_type_from_code(code)
    }
}

/// A term resolved to its type: one `enif_term_type` call has been made; the
/// data is still on the BEAM heap.
#[derive(Clone, Copy)]
pub enum TypedTerm<'id> {
    Atom(Atom),
    Bitstring(Bitstring<'id>),
    Float(Float<'id>),
    Fun(Fun<'id>),
    Integer(Integer<'id>),
    List(List<'id>),
    MapTerm(MapTerm<'id>),
    Pid(Pid<'id>),
    Port(Port<'id>),
    Reference(Reference<'id>),
    Tuple(Tuple<'id>),
}

impl<'id> TypedTerm<'id> {
    /// The term type of this variant.
    pub open spec fn spec_term_type(self) -> TermType {
        match self {
            TypedTerm::Atom(_) => TermType::Atom,
            TypedTerm::Bitstring(_) => TermType::Bitstring,
            TypedTerm::Float(_) => TermType::Float,
            TypedTerm::Fun(_) => TermType::Fun,
            TypedTerm::Integer(_) => TermType::Integer,
            TypedTerm::List(_) => TermType::List,
            TypedTerm::MapTerm(_) => TermType::MapTerm,
            TypedTerm::Pid(_) => TermType::Pid,
            TypedTerm::Port(_) => TermType::Port,
            TypedTerm::Reference(_) => TermType::Reference,
            TypedTerm::Tuple(_) => TermType::Tuple,
        }
    }

    /// The raw word of the term, whatever its variant.
    pub open spec fn spec_raw(self) -> RawTerm {
        match self {
            TypedTerm::Atom(t) => t@,
            TypedTerm::Bitstring(t) => t@,
            TypedTerm::Float(t) => t@,
            TypedTerm::Fun(t) => t@,
            TypedTerm::Integer(t) => t@,
            TypedTerm::List(t) => t@,
            TypedTerm::MapTerm(t) => t@,
            TypedTerm::Pid(t) => t@,
            TypedTerm::Port(t) => t@,
            TypedTerm::Reference(t) => t@,
            TypedTerm::Tuple(t) => t@,
        }
    }
}

impl<'id> Sealed for TypedTerm<'id> {}

impl<'id> Term<'id> for TypedTerm<'id> {
    /// Extract the underlying machine word, discarding the variant tag.
    fn raw_term(self) -> (r: RawTerm)
        ensures
            r == self.spec_raw(),
    {
        match self {
            TypedTerm::Atom(t) => t.raw_term(),
            TypedTerm::Bitstring(t) => t.raw_term(),
            TypedTerm::Float(t) => t.raw_term(),
            TypedTerm::Fun(t) => t.raw_term(),
            TypedTerm::Integer(t) => t.raw_term(),
            TypedTerm::List(t) => t.raw_term(),
            TypedTerm::MapTerm(t) => t.raw_term(),
            TypedTerm::Pid(t) => t.raw_term(),
            TypedTerm::Port(t) => t.raw_term(),
            TypedTerm::Reference(t) => t.raw_term(),
            TypedTerm::Tuple(t) => t.raw_term(),
        }
    }
}

impl<'id> AsNifTerm<'id> for TypedTerm<'id> {
    fn as_nif_term(&self) -> (r: RawTerm)
        ensures
            r == self.spec_raw(),
    {
        (*self).raw_term()
    }
}

impl<'id> AnyTerm<'id> {
    /// Resolve to a [`TypedTerm`] given the term's `enif_term_type` code: the
    /// variant the code denotes, over the same word. `None` for a code this
    /// build does not recognize; the `AnyTerm` itself stays usable.
    pub fn resolve(self, code: i32) -> (r: Option<TypedTerm<'id>>)
        ensures
            r is Some <==> term_type_of_code(code) is Some,
            r matches Some(t) ==> t.spec_term_type() == term_type_of_code(code).unwrap()
                && t.spec_raw() == self@,
    {
        let raw = self.raw_term;
        match term_type_from_code(code) {
            None => None,
            Some(TermType::Atom) => Some(TypedTerm::Atom(Atom::from_raw(raw))),
            Some(TermType::Bitstring) => Some(TypedTerm::Bitstring(Bitstring::from_raw(raw))),
            Some(TermType::Float) => Some(TypedTerm::Float(Float::from_raw(raw))),
            Some(TermType::Fun) => Some(TypedTerm::Fun(Fun::from_raw(raw))),
            Some(TermType::Integer) => Some(TypedTerm::Integer(Integer::from_raw(raw))),
            Some(TermType::List) => Some(TypedTerm::List(List::from_raw(raw))),
            Some(TermType::MapTerm) => Some(TypedTerm::MapTerm(MapTerm::from_raw(raw))),
            Some(TermType::Pid) => Some(TypedTerm::Pid(Pid::from_raw(raw))),
            Some(TermType::Port) => Some(TypedTerm::Port(Port::from_raw(raw))),
            Some(TermType::Reference) => Some(TypedTerm::Reference(Reference::from_raw(raw))),
            Some(TermType::Tuple) => Some(TypedTerm::Tuple(Tuple::from_raw(raw))),
        }
    }
}


/// Decoding from an [`AnyTerm`] once the term's type is known: each check
/// rewraps the same word into the concrete type, and the only failure is
/// [`CodecError::WrongType`] (or [`CodecError::UnknownTermType`] when resolving
/// a [`TypedTerm`]). No data is read off the BEAM heap.

impl<'id> Integer<'id> {
    /// Accept an integer term (`enif_term_type` reported `Integer`), given the term's
    /// type; anything else is `WrongType`.
    pub fn decode(term: AnyTerm<'id>, term_type: Option<TermType>) -> (r: Result<Self, CodecError>)
        ensures
            term_type == Some(TermType::Integer) ==> (r matches Ok(t) && t@ == term@),
            term_type != Some(TermType::Integer) ==> r == Err::<Self, CodecError>(CodecError::WrongType),
    {
        match term_type {
            Some(TermType::Integer) => Ok(Integer::from_raw(term.raw_term)),
            _ => Err(CodecError::WrongType),
        }
    }
}

impl<'id> Float<'id> {
    /// Accept a float term (`enif_term_type` reported `Float`), given the term's
    /// type; anything else is `WrongType`.
    pub fn decode(term: AnyTerm<'id>, term_type: Option<TermType>) -> (r: Result<Self, CodecError>)
        ensures
            term_type == Some(TermType::Float) ==> (r matches Ok(t) && t@ == term@),
            term_type != Some(TermType::Float) ==> r == Err::<Self, CodecError>(CodecError::WrongType),
    {
        match term_type {
            Some(TermType::Float) => Ok(Float::from_raw(term.raw_term)),
            _ => Err(CodecError::WrongType),
        }
    }
}

impl<'id> Bitstring<'id> {
    /// Accept any bitstring, byte-aligned or not (`enif_term_type` reported `Bitstring`), given the term's
    /// type; anything else is `WrongType`.
    pub fn decode(term: AnyTerm<'id>, term_type: Option<TermType>) -> (r: Result<Self, CodecError>)
        ensures
            term_type == Some(TermType::Bitstring) ==> (r matches Ok(t) && t@ == term@),
            term_type != Some(TermType::Bitstring) ==> r == Err::<Self, CodecError>(CodecError::WrongType),
    {
        match term_type {
            Some(TermType::Bitstring) => Ok(Bitstring::from_raw(term.raw_term)),
            _ => Err(CodecError::WrongType),
        }
    }
}

impl<'id> Reference<'id> {
    /// Accept the term when `enif_is_ref` holds for it (`matches`); anything else
    /// is `WrongType`.
    pub fn decode(term: AnyTerm<'id>, matches: bool) -> (r: Result<Self, CodecError>)
        ensures
            matches ==> (r matches Ok(t) && t@ == term@),
            !matches ==> r == Err::<Self, CodecError>(CodecError::WrongType),
    {
        if matches {
            Ok(Reference::from_raw(term.raw_term))
        } else {
            Err(CodecError::WrongType)
        }
    }
}

impl<'id> Fun<'id> {
    /// Accept the term when `enif_is_fun` holds for it (`matches`); anything else
    /// is `WrongType`.
    pub fn decode(term: AnyTerm<'id>, matches: bool) -> (r: Result<Self, CodecError>)
        ensures
            matches ==> (r matches Ok(t) && t@ == term@),
            !matches ==> r == Err::<Self, CodecError>(CodecError::WrongType),
    {
        if matches {
            Ok(Fun::from_raw(term.raw_term))
        } else {
            Err(CodecError::WrongType)
        }
    }
}

impl<'id> Tuple<'id> {
    /// Accept the term when `enif_is_tuple` holds for it (`matches`); anything else
    /// is `WrongType`.
    pub fn decode(term: AnyTerm<'id>, matches: bool) -> (r: Result<Self, CodecError>)
        ensures
            matches ==> (r matches Ok(t) && t@ == term@),
            !matches ==> r == Err::<Self, CodecError>(CodecError::WrongType),
    {
        if matches {
            Ok(Tuple::from_raw(term.raw_term))
        } else {
            Err(CodecError::WrongType)
        }
    }
}

impl<'id> List<'id> {
    /// Accept the term when `enif_is_list` holds for it (`matches`); anything else
    /// is `WrongType`.
    pub fn decode(term: AnyTerm<'id>, matches: bool) -> (r: Result<Self, CodecError>)
        ensures
            matches ==> (r matches Ok(t) && t@ == term@),
            !matches ==> r == Err::<Self, CodecError>(CodecError::WrongType),
    {
        if matches {
            Ok(List::from_raw(term.raw_term))
        } else {
            Err(CodecError::WrongType)
        }
    }
}

impl<'id> MapTerm<'id> {
    /// Accept the term when `enif_is_map` holds for it (`matches`); anything else
    /// is `WrongType`.
    pub fn decode(term: AnyTerm<'id>, matches: bool) -> (r: Result<Self, CodecError>)
        ensures
            matches ==> (r matches Ok(t) && t@ == term@),
            !matches ==> r == Err::<Self, CodecError>(CodecError::WrongType),
    {
        if matches {
            Ok(MapTerm::from_raw(term.raw_term))
        } else {
            Err(CodecError::WrongType)
        }
    }
}

impl<'id> Binary<'id> {
    /// Accept the term when `enif_is_binary` holds for it (`matches`); anything else
    /// is `WrongType`.
    pub fn decode(term: AnyTerm<'id>, matches: bool) -> (r: Result<Self, CodecError>)
        ensures
            matches ==> (r matches Ok(t) && t@ == term@),
            !matches ==> r == Err::<Self, CodecError>(CodecError::WrongType),
    {
        if matches {
            Ok(Binary::from_raw(term.raw_term))
        } else {
            Err(CodecError::WrongType)
        }
    }
}

impl<'id> Pid<'id> {
    /// Accept the term when `enif_is_pid` holds for it (`matches`); anything else
    /// is `WrongType`.
    pub fn decode(term: AnyTerm<'id>, matches: bool) -> (r: Result<Self, CodecError>)
        ensures
            matches ==> (r matches Ok(t) && t@ == term@),
            !matches ==> r == Err::<Self, CodecError>(CodecError::WrongType),
    {
        if matches {
            Ok(Pid::from_raw(term.raw_term))
        } else {
            Err(CodecError::WrongType)
        }
    }
}

impl<'id> Port<'id> {
    /// Accept the term when `enif_is_port` holds for it (`matches`); anything else
    /// is `WrongType`.
    pub fn decode(term: AnyTerm<'id>, matches: bool) -> (r: Result<Self, CodecError>)
        ensures
            matches ==> (r matches Ok(t) && t@ == term@),
            !matches ==> r == Err::<Self, CodecError>(CodecError::WrongType),
    {
        if matches {
            Ok(Port::from_raw(term.raw_term))
        } else {
            Err(CodecError::WrongType)
        }
    }
}

impl Atom {
    /// Accept the term when `enif_is_atom` holds for it (`matches`); anything else
    /// is `WrongType`.
    pub fn decode<'id>(term: AnyTerm<'id>, matches: bool) -> (r: Result<Self, CodecError>)
        ensures
            matches ==> (r matches Ok(t) && t@ == term@),
            !matches ==> r == Err::<Self, CodecError>(CodecError::WrongType),
    {
        if matches {
            Ok(Atom::from_raw(term.raw_term))
        } else {
            Err(CodecError::WrongType)
        }
    }
}

impl LocalPid {
    /// Accept a node-local identifier: `local` is what `enif_get_local_pid` yielded for
    /// the term; an external (remote-node) one is `WrongType`.
    pub fn decode(local: Option<LocalPid>) -> (r: Result<Self, CodecError>)
        ensures
            local matches Some(l) ==> r == Ok::<Self, CodecError>(l),
            local is None ==> r == Err::<Self, CodecError>(CodecError::WrongType),
    {
        match local {
            Some(l) => Ok(l),
            None => Err(CodecError::WrongType),
        }
    }
}

impl LocalPort {
    /// Accept a node-local identifier: `local` is what `enif_get_local_port` yielded for
    /// the term; an external (remote-node) one is `WrongType`.
    pub fn decode(local: Option<LocalPort>) -> (r: Result<Self, CodecError>)
        ensures
            local matches Some(l) ==> r == Ok::<Self, CodecError>(l),
            local is None ==> r == Err::<Self, CodecError>(CodecError::WrongType),
    {
        match local {
            Some(l) => Ok(l),
            None => Err(CodecError::WrongType),
        }
    }
}

impl<'id> TypedTerm<'id> {
    /// Resolve the term to its variant given its `enif_term_type` code; a
    /// code this build does not recognize is `UnknownTermType`.
    pub fn decode(term: AnyTerm<'id>, code: i32) -> (r: Result<Self, CodecError>)
        ensures
            term_type_of_code(code) is None ==> r == Err::<Self, CodecError>(
                CodecError::UnknownTermType,
            ),
            term_type_of_code(code) is Some ==> (r matches Ok(t) && t.spec_term_type()
                == term_type_of_code(code).unwrap() && t.spec_raw() == term@),
    {
        match term.resolve(code) {
            Some(t) => Ok(t),
            None => Err(CodecError::UnknownTermType),
        }
    }
}

impl<'id> Bitstring<'id> {
    /// View as a [`Binary`] when byte-aligned (`is_binary` is what
    /// `enif_is_binary` reported), else `None`.
    pub fn to_binary(self, is_binary: bool) -> (r: Option<Binary<'id>>)
        ensures
            is_binary ==> (r matches Some(b) && b@ == self@),
            !is_binary ==> r is None,
    {
        if is_binary {
            Some(Binary::from_raw(self.raw_term))
        } else {
            None
        }
    }
}


impl<'id> From<Atom> for TypedTerm<'id> {
    fn from(v: Atom) -> (r: Self) {
        TypedTerm::Atom(v)
    }
}

impl<'id> FromSpecImpl<Atom> for TypedTerm<'id> {
    open spec fn obeys_from_spec() -> bool {
        true
    }

    open spec fn from_spec(v: Atom) -> Self {
        TypedTerm::Atom(v)
    }
}

/// A binary is a byte-aligned bitstring, so it lands in the `Bitstring` variant.
impl<'id> From<Binary<'id>> for TypedTerm<'id> {
    fn from(v: Binary<'id>) -> (r: Self) {
        TypedTerm::Bitstring(Bitstring::from_raw(v.raw_term))
    }
}

impl<'id> FromSpecImpl<Binary<'id>> for TypedTerm<'id> {
    open spec fn obeys_from_spec() -> bool {
        true
    }

    open spec fn from_spec(v: Binary<'id>) -> Self {
        TypedTerm::Bitstring(Bitstring::spec_from_raw(v@))
    }
}

impl<'id> From<Bitstring<'id>> for TypedTerm<'id> {
    fn from(v: Bitstring<'id>) -> (r: Self) {
        TypedTerm::Bitstring(v)
    }
}

impl<'id> FromSpecImpl<Bitstring<'id>> for TypedTerm<'id> {
    open spec fn obeys_from_spec() -> bool {
        true
    }

    open spec fn from_spec(v: Bitstring<'id>) -> Self {
        TypedTerm::Bitstring(v)
    }
}

impl<'id> From<Float<'id>> for TypedTerm<'id> {
    fn from(v: Float<'id>) -> (r: Self) {
        TypedTerm::Float(v)
    }
}

impl<'id> FromSpecImpl<Float<'id>> for TypedTerm<'id> {
    open spec fn obeys_from_spec() -> bool {
        true
    }

    open spec fn from_spec(v: Float<'id>) -> Self {
        TypedTerm::Float(v)
    }
}

impl<'id> From<Fun<'id>> for TypedTerm<'id> {
    fn from(v: Fun<'id>) -> (r: Self) {
        TypedTerm::Fun(v)
    }
}

impl<'id> FromSpecImpl<Fun<'id>> for TypedTerm<'id> {
    open spec fn obeys_from_spec() -> bool {
        true
    }

    open spec fn from_spec(v: Fun<'id>) -> Self {
        TypedTerm::Fun(v)
    }
}

impl<'id> From<Integer<'id>> for TypedTerm<'id> {
    fn from(v: Integer<'id>) -> (r: Self) {
        TypedTerm::Integer(v)
    }
}

impl<'id> FromSpecImpl<Integer<'id>> for TypedTerm<'id> {
    open spec fn obeys_from_spec() -> bool {
        true
    }

    open spec fn from_spec(v: Integer<'id>) -> Self {
        TypedTerm::Integer(v)
    }
}

impl<'id> From<List<'id>> for TypedTerm<'id> {
    fn from(v: List<'id>) -> (r: Self) {
        TypedTerm::List(v)
    }
}

impl<'id> FromSpecImpl<List<'id>> for TypedTerm<'id> {
    open spec fn obeys_from_spec() -> bool {
        true
    }

    open spec fn from_spec(v: List<'id>) -> Self {
        TypedTerm::List(v)
    }
}

impl<'id> From<MapTerm<'id>> for TypedTerm<'id> {
    fn from(v: MapTerm<'id>) -> (r: Self) {
        TypedTerm::MapTerm(v)
    }
}

impl<'id> FromSpecImpl<MapTerm<'id>> for TypedTerm<'id> {
    open spec fn obeys_from_spec() -> bool {
        true
    }

    open spec fn from_spec(v: MapTerm<'id>) -> Self {
        TypedTerm::MapTerm(v)
    }
}

impl<'id> From<Pid<'id>> for TypedTerm<'id> {
    fn from(v: Pid<'id>) -> (r: Self) {
        TypedTerm::Pid(v)
    }
}

impl<'id> FromSpecImpl<Pid<'id>> for TypedTerm<'id> {
    open spec fn obeys_from_spec() -> bool {
        true
    }

    open spec fn from_spec(v: Pid<'id>) -> Self {
        TypedTerm::Pid(v)
    }
}

impl<'id> From<Port<'id>> for TypedTerm<'id> {
    fn from(v: Port<'id>) -> (r: Self) {
        TypedTerm::Port(v)
    }
}

impl<'id> FromSpecImpl<Port<'id>> for TypedTerm<'id> {
    open spec fn obeys_from_spec() -> bool {
        true
    }

    open spec fn from_spec(v: Port<'id>) -> Self {
        TypedTerm::Port(v)
    }
}

impl<'id> From<Reference<'id>> for TypedTerm<'id> {
    fn from(v: Reference<'id>) -> (r: Self) {
        TypedTerm::Reference(v)
    }
}

impl<'id> FromSpecImpl<Reference<'id>> for TypedTerm<'id> {
    open spec fn obeys_from_spec() -> bool {
        true
    }

    open spec fn from_spec(v: Reference<'id>) -> Self {
        TypedTerm::Reference(v)
    }
}

impl<'id> From<Tuple<'id>> for TypedTerm<'id> {
    fn from(v: Tuple<'id>) -> (r: Self) {
        TypedTerm::Tuple(v)
    }
}

impl<'id> FromSpecImpl<Tuple<'id>> for TypedTerm<'id> {
    open spec fn obeys_from_spec() -> bool {
        true
    }

    open spec fn from_spec(v: Tuple<'id>) -> Self {
        TypedTerm::Tuple(v)
    }
}

/// Why [`Atom::intern`] could not create an atom. A plain Rust error, never a
/// pending BEAM exception: the env is untouched.
#[derive(Debug, Clone, Copy, PartialEq, Eq, Structural)]
pub enum AtomError {
    /// The name exceeded `MAX_ATOM_CHARACTERS` (255 characters).
    NameTooLong,
}

impl AtomError {
    /// The human-readable description of this error (what `Display` prints).
    pub fn message(&self) -> (r: &'static str)
        ensures
            r@ == "atom name exceeds 255 characters"@,
    {
        match self {
            AtomError::NameTooLong => "atom name exceeds 255 characters",
        }
    }
}

impl Atom {
    /// The outcome of interning (`enif_make_new_atom_len`): `created` is
    /// whether the BEAM made the atom, `raw_term` the word it wrote. For a
    /// valid UTF-8 name the only refusal is an over-long name.
    pub fn interned(created: bool, raw_term: RawTerm) -> (r: Result<Atom, AtomError>)
        ensures
            created ==> (r matches Ok(a) && a@ == raw_term),
            !created ==> r == Err::<Atom, AtomError>(AtomError::NameTooLong),
    {
        if created {
            Ok(Atom { term: raw_term })
        } else {
            Err(AtomError::NameTooLong)
        }
    }

    /// The outcome of a lookup without creation
    /// (`enif_make_existing_atom_len`): the atom when it exists.
    pub fn existing(found: bool, raw_term: RawTerm) -> (r: Option<Atom>)
        ensures
            found ==> (r matches Some(a) && a@ == raw_term),
            !found ==> r is None,
    {
        if found {
            Some(Atom { term: raw_term })
        } else {
            None
        }
    }
}

/// The name bytes of an atom read with `enif_get_atom` into `buf`: `written`
/// counts the bytes the BEAM wrote including the NUL terminator, which is
/// stripped.
pub fn atom_name_bytes(buf: Vec<u8>, written: i32) -> (r: Vec<u8>)
    requires
        written > 0,
    ensures
        written - 1 <= buf@.len() ==> r@ == buf@.subrange(0, written - 1),
        written - 1 > buf@.len() ==> r@ == buf@,
{
    let mut buf = buf;
    buf.truncate((written - 1) as usize);
    buf
}

/// The string bytes of a charlist read with `enif_get_string` into `buf`:
/// `len` is the length `enif_get_string_length` reported and `written` what
/// `enif_get_string` returned. An empty string needs no read; a failed read
/// (`written <= 0`) means the list is not a valid string.
pub fn charlist_bytes(buf: Vec<u8>, len: usize, written: i32) -> (r: Option<Vec<u8>>)
    ensures
        len == 0 ==> (r matches Some(v) && v@.len() == 0),
        len != 0 && written <= 0 ==> r is None,
        len != 0 && written > 0 && len <= buf@.len() ==> (r matches Some(v) && v@ == buf@.subrange(0, len as int)),
        len != 0 && written > 0 && len > buf@.len() ==> (r matches Some(v) && v@ == buf@),
{
    if len == 0 {
        return Some(Vec::new());
    }
    if written <= 0 {
        return None;
    }
    let mut buf = buf;
    buf.truncate(len);
    Some(buf)
}

/// Proof that an exception is pending on a call env: a term-less token that
/// can only come from an operation that raised or detected a pending
/// exception. Propagate it straight out of the NIF with `?`; the wrapper then
/// returns the non-value word and the BEAM raises the pending exception.
pub struct Raised<'id> {
    _id: Invariant<'id>,
}

impl<'id> Raised<'id> {
    /// The token for an exception the BEAM now has pending on the env.
    pub fn pending() -> (r: Raised<'id>) {
        Raised { _id: PhantomData }
    }
}

/// If the env has a pending exception (`pending`, what
/// `enif_has_pending_exception` reported), `Err(Raised)`; otherwise `Ok(term)`.
pub fn check_raised<'id>(pending: bool, term: AnyTerm<'id>) -> (r: Result<AnyTerm<'id>, Raised<'id>>)
    ensures
        pending ==> r is Err,
        !pending ==> (r matches Ok(t) && t@ == term@),
{
    if pending {
        Err(Raised::pending())
    } else {
        Ok(term)
    }
}

/// `ERL_NIF_BIN2TERM_SAFE`: `enif_binary_to_term` refuses encoded atoms that
/// are not already in the atom table.
pub const BIN2TERM_SAFE: u32 = 0x2000_0000;

/// The options word handed to `enif_binary_to_term`: [`BIN2TERM_SAFE`] for a
/// safe decode, none otherwise.
pub fn binary_to_term_options(safe: bool) -> (r: u32)
    ensures
        r == (if safe {
            BIN2TERM_SAFE
        } else {
            0u32
        }),
{
    if safe {
        BIN2TERM_SAFE
    } else {
        0
    }
}

/// The outcome of `enif_binary_to_term`: `consumed` is the number of bytes
/// it read (`0` when decoding failed) and `raw_term` the word it wrote. The
/// decoded term on success, `None` on failure.
pub fn deserialized<'id>(consumed: usize, raw_term: RawTerm) -> (r: Option<AnyTerm<'id>>)
    ensures
        consumed == 0 ==> r is None,
        consumed != 0 ==> (r matches Some(t) && t@ == raw_term),
{
    if consumed != 0 {
        Some(AnyTerm::wrap(raw_term))
    } else {
        None
    }
}

/// The word a NIF returns for a `Result<T, Raised>` in return position: the
/// encoded value's word on `Ok`, the non-value marker on `Err` (the BEAM then
/// raises the pending exception).
pub fn return_word<'id>(result: Result<AnyTerm<'id>, Raised<'id>>) -> (r: RawTerm)
    ensures
        result matches Ok(t) ==> r == t@,
        result is Err ==> r == THE_NON_VALUE,
{
    match result {
        Ok(t) => t.raw_term,
        Err(_) => THE_NON_VALUE,
    }
}

impl<'id> Binary<'id> {
    /// Whether the span `pos..pos + len` lies inside a binary of `total`
    /// bytes (a sub-binary out of bounds is refused).
    pub fn sub_in_bounds(pos: usize, len: usize, total: usize) -> (r: bool)
        ensures
            r == (pos + len <= total),
    {
        match pos.checked_add(len) {
            Some(end) => end <= total,
            None => false,
        }
    }
}

/// Iterator over the heads of a [`List`], walking cons cells with
/// `enif_get_list_cell`. Iteration stops when the tail is not a cons cell;
/// that terminal value (`[]` for a proper list, the improper tail otherwise)
/// is then available from [`tail`](Self::tail).
pub struct ListIterator<'id> {
    current: RawTerm,
    tail: Option<AnyTerm<'id>>,
}

impl<'id> ListIterator<'id> {
    /// The word the walk stands on: the rest of the list.
    pub closed spec fn spec_current(&self) -> RawTerm {
        self.current
    }

    /// The terminal value, once the walk has reached it.
    pub closed spec fn spec_tail(&self) -> Option<AnyTerm<'id>> {
        self.tail
    }

    /// Start walking `list` from its first cell.
    pub fn new(list: List<'id>) -> (r: ListIterator<'id>)
        ensures
            r.spec_current() == list@,
            r.spec_tail() is None,
    {
        ListIterator { current: list.raw_term, tail: None }
    }

    /// The word to decompose next (`enif_get_list_cell`).
    pub fn current(&self) -> (r: RawTerm)
        ensures
            r == self.spec_current(),
    {
        self.current
    }

    /// Whether the walk has reached the terminal value.
    pub fn is_finished(&self) -> (r: bool)
        ensures
            r == self.spec_tail() is Some,
    {
        self.tail.is_some()
    }

    /// Take one step given what decomposing the current word gave: a cons
    /// cell yields its head and moves to its tail; anything else ends the
    /// walk, recording the current word as the terminal value. A finished
    /// walk yields nothing and stays finished.
    pub fn advance(&mut self, cell: Option<(RawTerm, RawTerm)>) -> (r: Option<AnyTerm<'id>>)
        ensures
            old(self).spec_tail() is Some ==> r is None && final(self).spec_tail() == old(
                self,
            ).spec_tail() && final(self).spec_current() == old(self).spec_current(),
            old(self).spec_tail() is None ==> match cell {
                Some((head, rest)) => (r matches Some(h) && h@ == head)
                    && final(self).spec_current() == rest && final(self).spec_tail() is None,
                None => r is None && (final(self).spec_tail() matches Some(t) && t@ == old(
                    self,
                ).spec_current()) && final(self).spec_current() == old(self).spec_current(),
            },
    {
        if self.tail.is_some() {
            return None;
        }
        match cell {
            Some((head, rest)) => {
                self.current = rest;
                Some(AnyTerm::wrap(head))
            },
            None => {
                self.tail = Some(AnyTerm::wrap(self.current));
                None
            },
        }
    }

    /// The terminal value of the walk: `None` until the iterator is exhausted.
    pub fn tail(&self) -> (r: Option<AnyTerm<'id>>)
        ensures
            r == self.spec_tail(),
    {
        self.tail
    }
}

/// A [`Tuple`] whose elements have been resolved (one `enif_get_tuple`): still
/// the tuple term, and a fixed-size collection of its element terms.
#[derive(Clone, Copy)]
pub struct TupleView<'id> {
    raw_term: RawTerm,
    raw_elements: &'id [RawTerm],
}

impl<'id> TupleView<'id> {
    /// The tuple's word.
    pub closed spec fn spec_raw(&self) -> RawTerm {
        self.raw_term
    }

    /// The element words.
    pub closed spec fn spec_elements(&self) -> Seq<RawTerm> {
        self.raw_elements@
    }

    /// The view of `tuple` over the element words `enif_get_tuple` returned.
    pub fn new(tuple: Tuple<'id>, raw_elements: &'id [RawTerm]) -> (r: TupleView<'id>)
        ensures
            r.spec_raw() == tuple@,
            r.spec_elements() == raw_elements@,
    {
        TupleView { raw_term: tuple.raw_term, raw_elements }
    }

    /// Number of elements (the tuple's arity).
    pub fn len(self) -> (r: usize)
        ensures
            r == self.spec_elements().len(),
    {
        self.raw_elements.len()
    }

    /// Whether the tuple has zero elements.
    pub fn is_empty(self) -> (r: bool)
        ensures
            r == (self.spec_elements().len() == 0),
    {
        self.raw_elements.len() == 0
    }

    /// The element at zero-based index `i`.
    pub fn get(self, i: usize) -> (r: AnyTerm<'id>)
        requires
            i < self.spec_elements().len(),
        ensures
            r@ == self.spec_elements()[i as int],
    {
        AnyTerm::wrap(self.raw_elements[i])
    }
}

impl<'id> Sealed for TupleView<'id> {}

impl<'id> Term<'id> for TupleView<'id> {
    fn raw_term(self) -> (r: RawTerm)
        ensures
            r == self.spec_raw(),
    {
        self.raw_term
    }
}

/// A pre-declared atom, interned once at load and retrieved thereafter with
/// no lookup. Initializing again is harmless: the first atom stays.
pub struct StaticAtom {
    name: &'static str,
    atom: Option<Atom>,
}

impl StaticAtom {
    /// The atom's name.
    pub closed spec fn spec_name(&self) -> Seq<char> {
        self.name@
    }

    /// The interned atom, once initialized.
    pub closed spec fn spec_atom(&self) -> Option<Atom> {
        self.atom
    }

    /// A not-yet-initialized atom named `name`.
    pub fn new(name: &'static str) -> (r: StaticAtom)
        ensures
            r.spec_name() == name@,
            r.spec_atom() is None,
    {
        StaticAtom { name, atom: None }
    }

    /// The name to intern.
    pub fn name(&self) -> (r: &'static str)
        ensures
            r@ == self.spec_name(),
    {
        self.name
    }

    /// Record the interned atom; a second initialization keeps the first.
    pub fn init(&mut self, atom: Atom)
        ensures
            old(self).spec_atom() is None ==> final(self).spec_atom() == Some(atom),
            old(self).spec_atom() is Some ==> final(self).spec_atom() == old(self).spec_atom(),
            final(self).spec_name() == old(self).spec_name(),
    {
        if self.atom.is_none() {
            self.atom = Some(atom);
        }
    }

    /// The cached atom. Only valid after [`init`](Self::init).
    pub fn get(&self) -> (r: Atom)
        requires
            self.spec_atom() is Some,
        ensures
            Some(r) == self.spec_atom(),
    {
        match self.atom {
            Some(a) => a,
            None => {
                assert(false);
                Atom { term: THE_NON_VALUE }
            },
        }
    }

    /// The cached atom, `None` before initialization.
    pub fn try_get(&self) -> (r: Option<Atom>)
        ensures
            r == self.spec_atom(),
    {
        self.atom
    }
}

} // verus!
