//! The drivers of a single simulation replica: building an environment and
//! its population, applying steps, and triggering collection. Every driver
//! works on any type that implements the capability traits; the bundled
//! [`DefaultEnvironment`] serves simulations that need no aggregate
//! behaviour of their own.

use vstd::prelude::*;

use crate::errors::SimError;
use crate::sink::Sink;
use crate::traits::Agent;
use crate::traits::Environment;
use crate::traits::all_collect_ok;
use crate::traits::all_tick_ok;
use crate::traits::records_of;
use crate::traits::ticked;

verus! {

/// The population that `pop_size` successful generation calls build: that
/// many freshly generated agents, in the order they were made.
pub open spec fn fresh_population<A: Agent>(pop_size: nat) -> Seq<A> {
    Seq::new(pop_size, |i: int| A::fresh())
}

/// A ready-made environment with no behaviour beyond the capability
/// contract: it owns the population it was given, ticks every agent once
/// per step in place, and collects every agent once per pass in population
/// order.
pub struct DefaultEnvironment<A: Agent> {
    population: Vec<A>,
}

impl<A: Agent> Environment<A> for DefaultEnvironment<A> {
    closed spec fn population(&self) -> Seq<A> {
        self.population@
    }

    open spec fn generate_ok(population: Seq<A>) -> bool {
        true
    }

    fn generate(population: Vec<A>) -> (r: Result<Self, &'static str>) {
        Ok(DefaultEnvironment { population })
    }

    fn tick(&mut self) -> (r: Result<(), &'static str>) {
        let n = self.population.len();
        let mut i: usize = 0;
        while i < n
            invariant
                n == old(self).population@.len(),
                self.population@.len() == n,
                i <= n,
                forall|j: int|
                    0 <= j < i ==> (#[trigger] old(self).population@[j]).tick_ok()
                        && self.population@[j] == old(self).population@[j].tick_spec(),
                forall|j: int| i <= j < n ==> self.population@[j] == old(self).population@[j],
            decreases n - i,
        {
            let ghost prev = self.population@;
            let mut agent = self.population.remove(i);
            let res = agent.tick();
            self.population.insert(i, agent);
            proof {
                assert(self.population@ =~= prev.update(i as int, agent));
            }
            if let Err(m) = res {
                proof {
                    assert(!old(self).population@[i as int].tick_ok());
                }
                return Err(m);
            }
            i = i + 1;
        }
        proof {
            assert(self.population@ =~= ticked(old(self).population@));
        }
        Ok(())
    }

    fn collect(&self, sink: &mut Sink) -> (r: Result<(), &'static str>) {
        let n = self.population.len();
        let mut i: usize = 0;
        while i < n
            invariant
                self.population@.len() == n,
                i <= n,
                forall|j: int| 0 <= j < i ==> (#[trigger] self.population@[j]).collect_ok(),
                sink@ == old(sink)@ + records_of(self.population@.take(i as int)),
            decreases n - i,
        {
            let agent = &self.population[i];
            let res = agent.collect(sink);
            if let Err(m) = res {
                proof {
                    let pop = self.population@;
                    assert(!pop[i as int].collect_ok());
                    assert(all_collect_ok(pop.take(i as int)));
                }
                return Err(m);
            }
            proof {
                let pop = self.population@;
                assert(pop.take(i + 1) =~= pop.take(i as int).push(pop[i as int]));
                assert(records_of(pop.take(i + 1)) =~= records_of(pop.take(i as int)).push(
                    pop[i as int].record_spec(),
                ));
            }
            i = i + 1;
        }
        proof {
            let pop = self.population@;
            assert(pop.take(n as int) =~= pop);
        }
        Ok(())
    }

    fn add_agent(&mut self, agent: A) -> (r: Result<(), &'static str>) {
        self.population.push(agent);
        Ok(())
    }

    fn add_agents(&mut self, agents: Vec<A>) -> (r: Result<(), &'static str>) {
        let mut agents = agents;
        self.population.append(&mut agents);
        Ok(())
    }
}

impl<A: Agent> DefaultEnvironment<A> {
    /// How many agents the environment currently owns.
    pub fn population_len(&self) -> (n: usize)
        ensures
            n == self.population().len(),
    {
        self.population.len()
    }
}

/// Build an environment of the caller's choosing around a population of
/// `pop_size` freshly generated agents. Generation is attempted exactly
/// `pop_size` times; the first refusal aborts the build, and then neither
/// an environment nor any part of the population is returned.
pub fn generate_env<E: Environment<A>, A: Agent>(pop_size: u64) -> (r: Result<E, SimError>)
    ensures
        r is Ok <==> (pop_size == 0 || A::fresh_ok()) && E::generate_ok(
            fresh_population::<A>(pop_size as nat),
        ),
        r is Ok ==> r->Ok_0.population() == fresh_population::<A>(pop_size as nat),
        r is Ok ==> r->Ok_0.population().len() == pop_size,
        r is Err ==> r->Err_0 is Construction,
{
    let mut pop: Vec<A> = Vec::new();
    let mut i: u64 = 0;
    while i < pop_size
        invariant
            i <= pop_size,
            pop@.len() == i,
            i > 0 ==> A::fresh_ok(),
            forall|j: int| 0 <= j < i ==> pop@[j] == A::fresh(),
        decreases pop_size - i,
    {
        match A::generate() {
            Ok(agent) => {
                pop.push(agent);
            },
            Err(m) => {
                return Err(SimError::Construction(m));
            },
        }
        i = i + 1;
    }
    proof {
        assert(pop@ =~= fresh_population::<A>(pop_size as nat));
    }
    match E::generate(pop) {
        Ok(env) => Ok(env),
        Err(m) => Err(SimError::Construction(m)),
    }
}

/// Build a [`DefaultEnvironment`] around a population of `pop_size`
/// freshly generated agents. The default environment accepts any
/// population, so the build succeeds exactly when every generation call
/// does.
pub fn generate_default_env<A: Agent>(pop_size: u64) -> (r: Result<
    DefaultEnvironment<A>,
    SimError,
>)
    ensures
        r is Ok <==> pop_size == 0 || A::fresh_ok(),
        r is Ok ==> r->Ok_0.population() == fresh_population::<A>(pop_size as nat),
        r is Ok ==> r->Ok_0.population().len() == pop_size,
        r is Err ==> r->Err_0 is Construction,
{
    generate_env::<DefaultEnvironment<A>, A>(pop_size)
}

/// Apply one step to an environment: every agent is ticked exactly once.
/// The step succeeds exactly when every agent accepts its tick; a failed
/// step leaves the population intact in size and surfaces as a step error.
pub fn tick<A: Agent, E: Environment<A>>(environment: &mut E) -> (r: Result<(), SimError>)
    ensures
        r is Ok <==> all_tick_ok(old(environment).population()),
        r is Ok ==> final(environment).population() == ticked(old(environment).population()),
        r is Err ==> final(environment).population().len() == old(
            environment,
        ).population().len(),
        r is Err ==> r->Err_0 is Step,
{
    match environment.tick() {
        Ok(()) => Ok(()),
        Err(m) => Err(SimError::Step(m)),
    }
}

/// Apply one step and then collect, in that order, on the same
/// environment; for callers that need data from a point inside a running
/// simulation. The collect pass observes the freshly ticked population and
/// never changes it: even when collection fails, the population stands
/// exactly as the tick left it.
pub fn tick_collect<A: Agent, E: Environment<A>>(environment: &mut E, sink: &mut Sink) -> (r:
    Result<(), SimError>)
    ensures
        r is Ok <==> all_tick_ok(old(environment).population()) && all_collect_ok(
            ticked(old(environment).population()),
        ),
        r is Ok ==> final(environment).population() == ticked(old(environment).population()),
        r is Ok ==> final(sink)@ == old(sink)@ + records_of(
            ticked(old(environment).population()),
        ),
        r is Err ==> (r->Err_0 is Step || r->Err_0 is Collect),
        r is Err && r->Err_0 is Step ==> !all_tick_ok(old(environment).population())
            && final(sink)@ == old(sink)@ && final(environment).population().len() == old(
            environment,
        ).population().len(),
        r is Err && r->Err_0 is Collect ==> all_tick_ok(old(environment).population())
            && final(environment).population() == ticked(old(environment).population())
            && !all_collect_ok(ticked(old(environment).population())),
        r is Err && r->Err_0 is Collect ==> exists|k: int|
            0 <= k < ticked(old(environment).population()).len()
            && !(#[trigger] ticked(old(environment).population())[k]).collect_ok()
            && all_collect_ok(ticked(old(environment).population()).take(k))
            && final(sink)@ == old(sink)@ + records_of(
                ticked(old(environment).population()).take(k),
            ),
{
    match environment.tick() {
        Ok(()) => {},
        Err(m) => {
            return Err(SimError::Step(m));
        },
    }
    match environment.collect(sink) {
        Ok(()) => Ok(()),
        Err(m) => Err(SimError::Collect(m)),
    }
}

/// Collect every agent of an environment once, in population order, as the
/// terminal operation of a replica: the environment is consumed, so no
/// further ticking of it is possible. The records of the agents collected
/// before a failure stay in the sink.
pub fn collect<A: Agent, E: Environment<A>>(environment: E, sink: &mut Sink) -> (r: Result<
    (),
    SimError,
>)
    ensures
        r is Ok <==> all_collect_ok(environment.population()),
        r is Ok ==> final(sink)@ == old(sink)@ + records_of(environment.population()),
        r is Err ==> r->Err_0 is Collect,
        r is Err ==> exists|k: int|
            0 <= k < environment.population().len()
            && !(#[trigger] environment.population()[k]).collect_ok()
            && all_collect_ok(environment.population().take(k))
            && final(sink)@ == old(sink)@ + records_of(environment.population().take(k)),
{
    match environment.collect(sink) {
        Ok(()) => Ok(()),
        Err(m) => Err(SimError::Collect(m)),
    }
}

} // verus!
