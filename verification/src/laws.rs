//! Crate-wide laws: properties that relate several operations, proved once
//! here so that every caller can lean on them.

use vstd::prelude::*;

use crate::agents::CounterAgent;
use crate::batch::replica_ok;
use crate::batch::replica_records;
use crate::batch::wave_count;
use crate::functions::DefaultEnvironment;
use crate::traits::Agent;
use crate::traits::agent_after;
use crate::traits::ticked;
use crate::traits::ticks_ok_upto;

verus! {

/// A counter agent accepts any run of ticks its counter has room for, and
/// after such a run its age has grown by exactly the number of ticks: one
/// step of simulated time per tick, never more, never less.
pub proof fn lemma_counter_ticks(a: CounterAgent, n: nat)
    requires
        a.age + n <= u64::MAX,
    ensures
        ticks_ok_upto(a, n),
        agent_after(a, n) == (CounterAgent { age: (a.age + n) as u64 }),
    decreases n,
{
    if n > 0 {
        lemma_counter_ticks(a, (n - 1) as nat);
    }
}

/// A whole replica of counter agents goes through whatever its size and
/// length, and each of its agents reports an age equal to the number of
/// steps the replica ran: the deterministic end-to-end behaviour of the
/// default simulation, for every population size and tick count at once.
pub proof fn lemma_counter_replica(pop_size: nat, ticks: nat)
    requires
        ticks <= u64::MAX,
    ensures
        replica_ok::<DefaultEnvironment<CounterAgent>, CounterAgent>(pop_size, ticks),
        replica_records::<CounterAgent>(pop_size, ticks) == Seq::new(
            pop_size,
            |i: int| ticks as u64,
        ),
{
    lemma_counter_ticks(CounterAgent { age: 0 }, ticks);
    assert(replica_records::<CounterAgent>(pop_size, ticks) =~= Seq::new(
        pop_size,
        |i: int| ticks as u64,
    ));
}

/// A population after a run of `n` whole environment steps, each step
/// ticking every agent once.
pub open spec fn ticked_n<A: Agent>(pop: Seq<A>, n: nat) -> Seq<A>
    decreases n,
{
    if n == 0 {
        pop
    } else {
        ticked(ticked_n(pop, (n - 1) as nat))
    }
}

/// Environment steps advance the agents in lockstep: after `n` whole
/// steps, every agent stands exactly where `n` ticks of its own take it,
/// and in its original position.
pub proof fn lemma_ticked_n_pointwise<A: Agent>(pop: Seq<A>, n: nat)
    ensures
        ticked_n(pop, n).len() == pop.len(),
        forall|i: int|
            0 <= i < pop.len() ==> ticked_n(pop, n)[i] == agent_after(#[trigger] pop[i], n),
    decreases n,
{
    if n > 0 {
        lemma_ticked_n_pointwise(pop, (n - 1) as nat);
    }
}

/// An agent appended to a population before a step is ticked by that step
/// like every other agent, in the position it was appended at.
pub proof fn lemma_added_agent_ticked<A: Agent>(pop: Seq<A>, agent: A)
    ensures
        ticked(pop.push(agent)) == ticked(pop).push(agent.tick_spec()),
{
    assert(ticked(pop.push(agent)) =~= ticked(pop).push(agent.tick_spec()));
}

/// Agents appended in bulk before a step are all ticked by that step, each
/// in the position it was appended at.
pub proof fn lemma_added_agents_ticked<A: Agent>(pop: Seq<A>, agents: Seq<A>)
    ensures
        ticked(pop + agents) == ticked(pop) + ticked(agents),
{
    assert(ticked(pop + agents) =~= ticked(pop) + ticked(agents));
}

/// The wave count of a batch is the ceiling of `runs / workers` in its
/// closed form: full waves, plus one for any remainder.
pub proof fn lemma_wave_count_is_ceil(runs: nat, workers: nat)
    requires
        workers > 0,
    ensures
        wave_count(runs, workers) == (runs + workers - 1) / (workers as int),
{
    let q = runs / workers;
    let r = runs % workers;
    vstd::arithmetic::div_mod::lemma_fundamental_div_mod(runs as int, workers as int);
    assert(runs == workers * q + r);
    if r == 0 {
        assert(runs + workers - 1 == workers * q + (workers - 1));
        vstd::arithmetic::div_mod::lemma_div_multiples_vanish_fancy(
            q as int,
            workers - 1,
            workers as int,
        );
    } else {
        assert(workers * (q + 1) == workers * q + workers) by (nonlinear_arith);
        assert(runs + workers - 1 == workers * (q + 1) + (r - 1));
        vstd::arithmetic::div_mod::lemma_div_multiples_vanish_fancy(
            q as int + 1,
            r - 1,
            workers as int,
        );
    }
}

} // verus!
