//! Verified core of an Erlang NIF library: term handles and their codecs, the
//! external-term-format integer encoding, owned binary buffers, message arenas,
//! the resource-type registry, and the address arithmetic behind the BEAM-backed
//! allocator.
use vstd::prelude::*;

pub mod abi;
pub mod allocator;
pub mod codec;
pub mod env;
pub mod etf;
pub mod priv_data;
pub mod resource;
pub mod system;
pub mod types;

verus! {

} // verus!
