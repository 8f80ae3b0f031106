//! The two capabilities a simulation is built from. An [`Agent`] is a unit
//! of local mutable state advanced by discrete ticks; an [`Environment`]
//! owns an ordered population of agents and advances or observes all of
//! them at once.
//!
//! Every operation is pinned to a mathematical model that the implementer
//! supplies through spec functions: what a freshly generated agent is, what
//! one tick does to a state, which states refuse to tick or to report, and
//! what record a state emits. Contracts throughout the crate are stated
//! over that model, so whatever holds of a driver or of the batch layer
//! holds for every implementation of these traits that verifies.

use vstd::prelude::*;

use crate::sink::Sink;

verus! {

/// A unit of local mutable state advanced by discrete ticks.
///
/// The model is deterministic: generation, the effect of a tick, and the
/// emitted record are functions of the state alone, and whether a tick or
/// a report is refused is a predicate on the state alone. Randomness or
/// other outside input belongs to the caller, who feeds it in through the
/// state it constructs.
pub trait Agent: Sized {
    /// Whether this kind of agent can be generated at all. Generation takes
    /// no parameters, so success is a property of the type.
    spec fn fresh_ok() -> bool;

    /// The state a successful generation produces.
    spec fn fresh() -> Self;

    /// Whether a tick of this state succeeds.
    spec fn tick_ok(&self) -> bool;

    /// The state one successful tick leads to.
    spec fn tick_spec(&self) -> Self;

    /// Whether this state agrees to report itself.
    spec fn collect_ok(&self) -> bool;

    /// The record this state emits when collected.
    spec fn record_spec(&self) -> u64;

    /// Construct a new agent. Failure aborts whatever population build
    /// encloses the call; no partially built agent is returned.
    fn generate() -> (r: Result<Self, &'static str>)
        ensures
            r is Ok <==> Self::fresh_ok(),
            r is Ok ==> r->Ok_0 == Self::fresh(),
    ;

    /// Advance the state by exactly one discrete step. Failure is reported,
    /// not retried; a failed tick leaves the agent in an unspecified state
    /// but does not destroy it.
    fn tick(&mut self) -> (r: Result<(), &'static str>)
        ensures
            r is Ok <==> old(self).tick_ok(),
            r is Ok ==> *final(self) == old(self).tick_spec(),
    ;

    /// Report the current observable state to the sink. The shared
    /// receiver makes this read-only by construction: no agent state can
    /// change here. On success exactly one record is appended; on failure
    /// the sink is untouched.
    fn collect(&self, sink: &mut Sink) -> (r: Result<(), &'static str>)
        ensures
            r is Ok <==> self.collect_ok(),
            r is Ok ==> final(sink)@ == old(sink)@.push(self.record_spec()),
            r is Err ==> final(sink)@ == old(sink)@,
    ;
}

/// Every agent of a population accepts a tick in its current state.
pub open spec fn all_tick_ok<A: Agent>(pop: Seq<A>) -> bool {
    forall|i: int| 0 <= i < pop.len() ==> (#[trigger] pop[i]).tick_ok()
}

/// The population after one tick of every agent.
pub open spec fn ticked<A: Agent>(pop: Seq<A>) -> Seq<A> {
    pop.map_values(|a: A| a.tick_spec())
}

/// Every agent of a population agrees to report in its current state.
pub open spec fn all_collect_ok<A: Agent>(pop: Seq<A>) -> bool {
    forall|i: int| 0 <= i < pop.len() ==> (#[trigger] pop[i]).collect_ok()
}

/// The records a population emits, in population order.
pub open spec fn records_of<A: Agent>(pop: Seq<A>) -> Seq<u64> {
    pop.map_values(|a: A| a.record_spec())
}

/// The state an agent reaches after a run of `n` successful ticks.
pub open spec fn agent_after<A: Agent>(a: A, n: nat) -> A
    decreases n,
{
    if n == 0 {
        a
    } else {
        agent_after(a, (n - 1) as nat).tick_spec()
    }
}

/// Whether an agent accepts every one of a run of `n` ticks: each of the
/// `n` states it passes through, starting at `a`, accepts its tick.
pub open spec fn ticks_ok_upto<A: Agent>(a: A, n: nat) -> bool
    decreases n,
{
    if n == 0 {
        true
    } else {
        ticks_ok_upto(a, (n - 1) as nat) && agent_after(a, (n - 1) as nat).tick_ok()
    }
}

/// A run of ticks that goes through accepts every shorter run: the states
/// passed through first are the same.
pub proof fn lemma_ticks_ok_prefix<A: Agent>(a: A, t: nat, n: nat)
    requires
        t <= n,
        ticks_ok_upto(a, n),
    ensures
        ticks_ok_upto(a, t),
        t < n ==> agent_after(a, t).tick_ok(),
    decreases n,
{
    if t < n {
        lemma_ticks_ok_prefix(a, t, (n - 1) as nat);
        if t == n - 1 {
            assert(agent_after(a, t).tick_ok());
        }
    }
}

/// The owner of an ordered population of agents: the unit of one
/// simulation replica. It advances every agent exactly once per tick and
/// collects every agent exactly once per observation pass.
pub trait Environment<A: Agent>: Sized {
    /// The ordered population this environment currently owns.
    spec fn population(&self) -> Seq<A>;

    /// Whether environment-level setup accepts this population.
    spec fn generate_ok(population: Seq<A>) -> bool;

    /// Take ownership of an already-built population. On failure the
    /// population is discarded and no environment exists; on success the
    /// environment owns exactly the agents it was given, in their order.
    fn generate(population: Vec<A>) -> (r: Result<Self, &'static str>)
        ensures
            r is Ok <==> Self::generate_ok(population@),
            r is Ok ==> r->Ok_0.population() == population@,
    ;

    /// Apply one discrete step to every agent, each exactly once. The step
    /// succeeds exactly when every agent accepts its tick; it fails fast on
    /// the first refusal, and a failed step never loses agents: the
    /// partially advanced population, of unchanged size, stays owned here.
    fn tick(&mut self) -> (r: Result<(), &'static str>)
        ensures
            r is Ok <==> all_tick_ok(old(self).population()),
            r is Ok ==> final(self).population() == ticked(old(self).population()),
            r is Err ==> final(self).population().len() == old(self).population().len(),
    ;

    /// Collect every agent in population order; the first refusal aborts
    /// the rest of the pass. The records of the agents before the failing
    /// one have already reached the sink and stay there.
    fn collect(&self, sink: &mut Sink) -> (r: Result<(), &'static str>)
        ensures
            r is Ok <==> all_collect_ok(self.population()),
            r is Ok ==> final(sink)@ == old(sink)@ + records_of(self.population()),
            r is Err ==> exists|k: int|
                0 <= k < self.population().len()
                && !(#[trigger] self.population()[k]).collect_ok()
                && all_collect_ok(self.population().take(k))
                && final(sink)@ == old(sink)@ + records_of(self.population().take(k)),
    ;

    /// Append one agent to the population. A pre-run setup operation:
    /// the population grows by exactly that agent, at the end.
    fn add_agent(&mut self, agent: A) -> (r: Result<(), &'static str>)
        ensures
            r is Ok,
            final(self).population() == old(self).population().push(agent),
    ;

    /// Append several agents to the population, keeping their order.
    fn add_agents(&mut self, agents: Vec<A>) -> (r: Result<(), &'static str>)
        ensures
            r is Ok,
            final(self).population() == old(self).population() + agents@,
    ;
}

} // verus!
