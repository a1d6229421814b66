//! The env/term spine: term handles, their typed resolution, owned binary
//! buffers, and the process-independent message arenas.
pub mod arena;
pub mod binarybuf;
pub mod terms;

pub use arena::{ArenaState, GenerationCounter, OwnedEnvTerm};
pub use binarybuf::{BinaryBuf, BinaryBuilder};
pub use terms::{
    atom_name_bytes, binary_to_term_options, charlist_bytes, check_raised, deserialized,
    return_word, AnyTerm, AsNifTerm, Atom, AtomError, Binary, Bitstring, Float, FreeTerm, Fun, Integer, Invariant, List, ListIterator,
    LocalPid, LocalPort, MapTerm, Pid, Port, Raised, RawTerm, Reference, Sealed, StaticAtom, Term,
    TermType, Tuple, TupleView, TypedTerm, BIN2TERM_SAFE, THE_NON_VALUE,
};
