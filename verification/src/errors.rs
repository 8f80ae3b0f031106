//! Typed failures of the simulation core, one variant per phase of a
//! replica's lifecycle, each carrying the message reported by the failing
//! agent or environment.

use vstd::prelude::*;

verus! {

/// A failure of one phase of a simulation: building a population or an
/// environment, applying a step, or collecting observable output.
#[derive(Clone, Copy, PartialEq, Eq, Debug)]
pub enum SimError {
    /// An agent or environment could not be constructed; nothing partially
    /// built is returned to the caller.
    Construction(&'static str),
    /// An agent's tick failed mid-step; the step is incomplete but the
    /// population is intact.
    Step(&'static str),
    /// An agent refused to report its state; the remaining collect pass was
    /// abandoned.
    Collect(&'static str),
}

impl SimError {
    /// The message reported by the failing agent or environment.
    pub fn message(&self) -> (m: &'static str)
        ensures
            *self is Construction ==> m == self->Construction_0,
            *self is Step ==> m == self->Step_0,
            *self is Collect ==> m == self->Collect_0,
    {
        match self {
            SimError::Construction(m) => m,
            SimError::Step(m) => m,
            SimError::Collect(m) => m,
        }
    }
}

/// The failure of one replica of a batch, as surfaced when its wave is
/// joined: which replica failed, and how.
#[derive(Clone, Copy, PartialEq, Eq, Debug)]
pub struct ReplicaFailure {
    /// Position of the failed replica in the whole batch, counted from zero.
    pub replica: u64,
    /// The phase that failed inside that replica.
    pub error: SimError,
}

} // verus!
