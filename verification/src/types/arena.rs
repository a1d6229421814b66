//! The bookkeeping of a reusable process-independent environment (an
//! `OwnedEnvArena`) for building messages outside a NIF call.
//!
//! Terms built in an arena are exported as portable [`OwnedEnvTerm`] handles
//! stamped with the arena's generation. Every arena — and every arena after
//! each `clear` — takes a fresh, globally unique generation stamp, so a handle
//! is accepted only by the exact arena-generation that produced it. A
//! steal-send transplants the arena's whole heap into the message and leaves
//! the arena dirty until it is cleared. The env itself (`enif_alloc_env`,
//! `enif_clear_env`, `enif_send`) is the host's; this module decides what
//! those calls may be given.
use vstd::prelude::*;

use crate::types::terms::RawTerm;

verus! {

/// The process-wide source of arena generation stamps, handed out
/// monotonically so every arena-generation gets a value no other ever holds.
pub struct GenerationCounter {
    next: u64,
}

impl GenerationCounter {
    /// The stamp the next call hands out.
    pub closed spec fn spec_next(&self) -> u64 {
        self.next
    }

    /// A counter whose first stamp is `1`.
    pub fn new() -> (r: GenerationCounter)
        ensures
            r.spec_next() == 1,
    {
        GenerationCounter { next: 1 }
    }

    /// Whether another stamp can be handed out (the counter has not reached
    /// `u64::MAX`, which would take 2^64 stamps).
    pub fn has_next(&self) -> (r: bool)
        ensures
            r == (self.spec_next() < u64::MAX),
    {
        self.next < u64::MAX
    }

    /// Hand out the next generation stamp. Every later stamp from this
    /// counter is strictly greater. (Wrapping would take 2^64 stamps.)
    pub fn next_generation(&mut self) -> (r: u64)
        requires
            old(self).spec_next() < u64::MAX,
        ensures
            r == old(self).spec_next(),
            final(self).spec_next() == old(self).spec_next() + 1,
            final(self).spec_next() > r,
    {
        let r = self.next;
        self.next = self.next + 1;
        r
    }
}

/// A portable handle to a term stored in an arena: the arena-generation's
/// stamp and the term's word. `Copy` and unbranded, so it can leave the
/// closure the term was built in or travel to a worker thread.
#[derive(Clone, Copy)]
pub struct OwnedEnvTerm {
    version: u64,
    term: RawTerm,
}

impl OwnedEnvTerm {
    /// The generation stamp of the arena that exported the term.
    pub closed spec fn spec_version(&self) -> u64 {
        self.version
    }

    /// The exported term word.
    pub closed spec fn spec_term(&self) -> RawTerm {
        self.term
    }
}

/// The state of one arena: its current generation stamp and whether a
/// steal-send has consumed its heap since the last clear.
pub struct ArenaState {
    version: u64,
    is_dirty: bool,
}

/// `state` accepts `oterm`: the arena is clean and the handle carries its
/// current generation stamp.
pub open spec fn accepts(state: ArenaState, oterm: OwnedEnvTerm) -> bool {
    !state.spec_dirty() && oterm.spec_version() == state.spec_version()
}

impl ArenaState {
    /// The arena's current generation stamp.
    pub closed spec fn spec_version(&self) -> u64 {
        self.version
    }

    /// Whether the arena's heap was steal-sent since the last clear.
    pub closed spec fn spec_dirty(&self) -> bool {
        self.is_dirty
    }

    /// A fresh, clean arena taking the generation stamp `version`.
    pub fn new(version: u64) -> (r: ArenaState)
        ensures
            r.spec_version() == version,
            !r.spec_dirty(),
    {
        ArenaState { version, is_dirty: false }
    }

    /// A fresh, clean arena taking the next stamp of `counter`. Every stamp
    /// the counter handed out before is below it, so no arena drawn from
    /// the same counter ever held it.
    pub fn fresh(counter: &mut GenerationCounter) -> (r: ArenaState)
        requires
            old(counter).spec_next() < u64::MAX,
        ensures
            r.spec_version() == old(counter).spec_next(),
            !r.spec_dirty(),
            final(counter).spec_next() == old(counter).spec_next() + 1,
            r.spec_version() < final(counter).spec_next(),
    {
        ArenaState::new(counter.next_generation())
    }

    /// Wipe the arena (after `enif_clear_env`), taking the next stamp of
    /// `counter` and becoming clean. The new stamp is above every stamp the
    /// counter handed out before, so it differs from the arena's old stamp
    /// when that came from the same counter, and no handle stamped before
    /// the clear is accepted afterwards.
    pub fn clear_from(&mut self, counter: &mut GenerationCounter)
        requires
            old(counter).spec_next() < u64::MAX,
        ensures
            final(self).spec_version() == old(counter).spec_next(),
            !final(self).spec_dirty(),
            final(counter).spec_next() == old(counter).spec_next() + 1,
            final(self).spec_version() < final(counter).spec_next(),
            old(self).spec_version() < old(counter).spec_next() ==> final(self).spec_version()
                != old(self).spec_version(),
            forall|o: OwnedEnvTerm|
                o.spec_version() < old(counter).spec_next() ==> !#[trigger] accepts(
                    *final(self),
                    o,
                ),
    {
        let version = counter.next_generation();
        self.clear(version);
    }

    /// The arena's current generation stamp.
    pub fn version(&self) -> (r: u64)
        ensures
            r == self.spec_version(),
    {
        self.version
    }

    /// Whether the arena was steal-sent and must be cleared before reuse.
    pub fn is_dirty(&self) -> (r: bool)
        ensures
            r == self.spec_dirty(),
    {
        self.is_dirty
    }

    /// After the heap is wiped (`enif_clear_env`): take the fresh generation
    /// stamp `version` and become clean again.
    pub fn clear(&mut self, version: u64)
        ensures
            final(self).spec_version() == version,
            !final(self).spec_dirty(),
    {
        self.version = version;
        self.is_dirty = false;
    }

    /// Stamp a term word living in this arena's heap as a portable handle.
    pub fn wrap_term(&self, term: RawTerm) -> (r: OwnedEnvTerm)
        requires
            !self.spec_dirty(),
        ensures
            r.spec_version() == self.spec_version(),
            r.spec_term() == term,
    {
        OwnedEnvTerm { version: self.version, term }
    }

    /// Whether `oterm` may be used with this arena now: the arena is clean
    /// and the handle belongs to its current generation.
    pub fn accepts(&self, oterm: &OwnedEnvTerm) -> (r: bool)
        ensures
            r == accepts(*self, *oterm),
    {
        !self.is_dirty && self.version == oterm.version
    }

    /// The term word behind a handle of this arena-generation. The version
    /// check alone identifies the arena: stamps are globally unique and an
    /// arena's env is fixed for its life.
    pub fn unwrap_term(&self, oterm: OwnedEnvTerm) -> (r: RawTerm)
        requires
            accepts(*self, oterm),
        ensures
            r == oterm.spec_term(),
    {
        oterm.term
    }

    /// Record the outcome of a steal-send of this arena's heap: a delivered
    /// message took the heap, leaving the arena dirty until cleared.
    pub fn record_send(&mut self, delivered: bool)
        requires
            !old(self).spec_dirty(),
        ensures
            final(self).spec_dirty() == delivered,
            final(self).spec_version() == old(self).spec_version(),
    {
        self.is_dirty = delivered;
    }
}

/// Exporting a term and importing the handle back into the same clean
/// arena-generation gives back the same term word.
pub proof fn lemma_export_import(state: ArenaState, oterm: OwnedEnvTerm, term: RawTerm)
    requires
        !state.spec_dirty(),
        oterm.spec_version() == state.spec_version(),
        oterm.spec_term() == term,
    ensures
        accepts(state, oterm),
{
}

/// Clearing an arena with a fresh generation stamp invalidates every handle
/// exported before the clear: the stamp taken by the clear is one the
/// counter hands out after the arena's old stamp, so it differs from it, and
/// no handle of the old generation is accepted afterwards.
pub proof fn lemma_clear_invalidates_exports(
    before: ArenaState,
    oterm: OwnedEnvTerm,
    counter: GenerationCounter,
    after: ArenaState,
)
    requires
        oterm.spec_version() == before.spec_version(),
        before.spec_version() < counter.spec_next(),
        after.spec_version() == counter.spec_next(),
    ensures
        !accepts(after, oterm),
{
}

/// A steal-sent arena accepts no handle until it is cleared.
pub proof fn lemma_dirty_arena_accepts_nothing(state: ArenaState, oterm: OwnedEnvTerm)
    requires
        state.spec_dirty(),
    ensures
        !accepts(state, oterm),
{
}

/// A handle is accepted only by the arena-generation that stamped it: an
/// arena whose stamp differs from the handle's, older or newer, refuses it,
/// and a clean arena with the handle's own stamp accepts it.
pub proof fn lemma_accepts_exactly_own_generation(state: ArenaState, oterm: OwnedEnvTerm)
    ensures
        oterm.spec_version() != state.spec_version() ==> !accepts(state, oterm),
        oterm.spec_version() == state.spec_version() && !state.spec_dirty() ==> accepts(
            state,
            oterm,
        ),
{
}

/// Two arenas drawn one after the other from one counter never accept each
/// other's handles: a handle stamped by the second is refused by the first,
/// and one stamped by the first is refused by the second.
pub proof fn lemma_distinct_arenas_refuse_each_other(
    first: ArenaState,
    second: ArenaState,
    from_first: OwnedEnvTerm,
    from_second: OwnedEnvTerm,
)
    requires
        first.spec_version() < second.spec_version(),
        from_first.spec_version() == first.spec_version(),
        from_second.spec_version() == second.spec_version(),
    ensures
        !accepts(first, from_second),
        !accepts(second, from_first),
{
}

} // verus!
