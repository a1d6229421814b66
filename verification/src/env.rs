//! The kinds of environment the BEAM hands a NIF library.
use vstd::prelude::*;

use crate::types::terms::{RawTerm, THE_NON_VALUE};

verus! {

/// Distinguishes the context in which an environment was created. The BEAM
/// uses different internal env types for different contexts; higher layers
/// enforce context-specific restrictions by kind.
#[derive(Clone, Copy, PartialEq, Eq, Debug, Structural)]
pub enum EnvKind {
    /// Standard NIF call environment.
    ProcessBound,
    /// Resource destructor, monitor, or select-stop callback environment.
    Callback,
    /// Load callback environment. Valid for resource type registration.
    Load,
    /// Upgrade callback environment. Valid for resource type registration.
    Upgrade,
    /// Unload callback environment.
    Unload,
    /// Process-independent environment created with `enif_alloc_env`.
    ProcessIndependent,
}

impl EnvKind {
    /// Whether resource types may be registered from an env of this kind:
    /// only the `load` and `upgrade` callbacks may.
    pub fn may_register_resource_types(self) -> (r: bool)
        ensures
            r == (self == EnvKind::Load || self == EnvKind::Upgrade),
    {
        match self {
            EnvKind::Load => true,
            EnvKind::Upgrade => true,
            _ => false,
        }
    }

    /// Whether an env of this kind carries a calling process, so messages
    /// and port commands sent from it are attributed to that process.
    pub fn has_caller(self) -> (r: bool)
        ensures
            r == (self == EnvKind::ProcessBound || self == EnvKind::Callback),
    {
        match self {
            EnvKind::ProcessBound => true,
            EnvKind::Callback => true,
            _ => false,
        }
    }
}

/// Builds a single message term in a process-independent environment (the
/// env at address `env`, from `enif_alloc_env`), then hands that env and the
/// chosen message over as an [`OwnedTerm`] whose heap is stolen on send.
pub struct OwnedTermBuilder {
    env: usize,
    msg: RawTerm,
}

/// A message term that owns its process-independent environment, ready to
/// send. Produced by [`OwnedTermBuilder::build`].
pub struct OwnedTerm {
    env: usize,
    msg: RawTerm,
}

impl OwnedTermBuilder {
    /// The address of the builder's environment.
    pub closed spec fn spec_env(&self) -> usize {
        self.env
    }

    /// The chosen message, `THE_NON_VALUE` until one is set.
    pub closed spec fn spec_msg(&self) -> RawTerm {
        self.msg
    }

    /// A builder over the fresh process-independent environment at `env`,
    /// with no message chosen yet.
    pub fn new(env: usize) -> (r: OwnedTermBuilder)
        requires
            env != 0,
        ensures
            r.spec_env() == env,
            r.spec_msg() == THE_NON_VALUE,
    {
        OwnedTermBuilder { env, msg: THE_NON_VALUE }
    }

    /// The address of the environment to build terms in.
    pub fn env(&self) -> (r: usize)
        ensures
            r == self.spec_env(),
    {
        self.env
    }

    /// Whether a message has been chosen.
    pub fn is_set(&self) -> (r: bool)
        ensures
            r == (self.spec_msg() != THE_NON_VALUE),
    {
        self.msg != THE_NON_VALUE
    }

    /// Choose `term`, built in the environment at `term_env`, as the message.
    /// The term must come from this builder's environment.
    pub fn set(&mut self, term_env: usize, term: RawTerm)
        requires
            term_env == old(self).spec_env(),
        ensures
            final(self).spec_msg() == term,
            final(self).spec_env() == old(self).spec_env(),
    {
        self.msg = term;
    }

    /// Consume the builder into a sendable [`OwnedTerm`] holding its
    /// environment and the last message set. A message must have been set.
    pub fn build(self) -> (r: OwnedTerm)
        requires
            self.spec_msg() != THE_NON_VALUE,
        ensures
            r.spec_env() == self.spec_env(),
            r.spec_msg() == self.spec_msg(),
    {
        OwnedTerm { env: self.env, msg: self.msg }
    }
}

impl OwnedTerm {
    /// The address of the environment the message lives in.
    pub closed spec fn spec_env(&self) -> usize {
        self.env
    }

    /// The message term.
    pub closed spec fn spec_msg(&self) -> RawTerm {
        self.msg
    }

    /// The address of the environment the message lives in.
    pub fn env(&self) -> (r: usize)
        ensures
            r == self.spec_env(),
    {
        self.env
    }

    /// The message term.
    pub fn msg(&self) -> (r: RawTerm)
        ensures
            r == self.spec_msg(),
    {
        self.msg
    }
}

/// The env kinds that carry a live process or scheduler context — those a
/// message can be sent or a port command issued *from*, with caller
/// attribution. Implemented by the call and callback env handles.
pub trait CallingEnv<'id> {}

} // verus!
