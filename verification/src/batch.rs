//! The batch replication layer: running many independent replicas of one
//! simulation. A replica builds a fresh environment, applies a fixed number
//! of steps and ends with one terminal collect; a batch of `runs` replicas
//! is partitioned into waves of at most `workers` replicas, the waves run
//! one after another, and the first replica failure seen when a wave is
//! joined fails the whole batch.
//!
//! Everything that decides is here and verified: what one replica computes,
//! how a batch is cut into waves, and which failure a joined wave reports.
//! Only the act of running the replicas of a wave at the same time is left
//! to the caller, who hands each worker's result back to [`join_wave`].

use vstd::prelude::*;

use crate::errors::ReplicaFailure;
use crate::errors::SimError;
use crate::functions::collect;
use crate::functions::fresh_population;
use crate::functions::generate_env;
use crate::functions::tick;
use crate::sink::Sink;
use crate::traits::Agent;
use crate::traits::Environment;
use crate::traits::agent_after;
use crate::traits::all_collect_ok;
use crate::traits::all_tick_ok;
use crate::traits::lemma_ticks_ok_prefix;
use crate::traits::records_of;
use crate::traits::ticked;
use crate::traits::ticks_ok_upto;

verus! {

/// Whether the build phase of a replica goes through: every agent
/// generation and the environment-level setup.
pub open spec fn replica_gen_ok<E: Environment<A>, A: Agent>(pop_size: nat) -> bool {
    (pop_size > 0 ==> A::fresh_ok()) && E::generate_ok(fresh_population::<A>(pop_size))
}

/// Whether every one of the `ticks` steps of a replica goes through. All
/// agents of a replica are freshly generated, so they march through the
/// same states.
pub open spec fn replica_steps_ok<A: Agent>(pop_size: nat, ticks: nat) -> bool {
    pop_size > 0 ==> ticks_ok_upto(A::fresh(), ticks)
}

/// Whether the terminal collect of a replica goes through, after all
/// `ticks` steps did.
pub open spec fn replica_observe_ok<A: Agent>(pop_size: nat, ticks: nat) -> bool {
    pop_size > 0 ==> agent_after(A::fresh(), ticks).collect_ok()
}

/// Whether a whole replica goes through: build, every step, and the
/// terminal collect.
pub open spec fn replica_ok<E: Environment<A>, A: Agent>(pop_size: nat, ticks: nat) -> bool {
    replica_gen_ok::<E, A>(pop_size) && replica_steps_ok::<A>(pop_size, ticks)
        && replica_observe_ok::<A>(pop_size, ticks)
}

/// The output of a successful replica: one record per agent, each the
/// report of a fresh agent that absorbed all `ticks` steps.
pub open spec fn replica_records<A: Agent>(pop_size: nat, ticks: nat) -> Seq<u64> {
    Seq::new(pop_size, |i: int| agent_after(A::fresh(), ticks).record_spec())
}

/// Run one full replica: build an environment of `pop_size` freshly
/// generated agents, apply `ticks` steps, then collect every agent into a
/// sink of the replica's own. The replica owns everything it touches, so
/// any number of such runs are independent of one another.
pub fn run_replica<E: Environment<A>, A: Agent>(pop_size: u64, ticks: u64) -> (r: Result<
    Sink,
    SimError,
>)
    ensures
        r is Ok <==> replica_ok::<E, A>(pop_size as nat, ticks as nat),
        r is Ok ==> r->Ok_0@ == replica_records::<A>(pop_size as nat, ticks as nat),
        r is Err ==> (r->Err_0 is Construction <==> !replica_gen_ok::<E, A>(pop_size as nat)),
        r is Err ==> (r->Err_0 is Step <==> replica_gen_ok::<E, A>(pop_size as nat)
            && !replica_steps_ok::<A>(pop_size as nat, ticks as nat)),
        r is Err ==> (r->Err_0 is Collect <==> replica_gen_ok::<E, A>(pop_size as nat)
            && replica_steps_ok::<A>(pop_size as nat, ticks as nat) && !replica_observe_ok::<A>(
            pop_size as nat,
            ticks as nat,
        )),
{
    let mut env: E = match generate_env::<E, A>(pop_size) {
        Ok(env) => env,
        Err(e) => {
            return Err(e);
        },
    };
    let mut t: u64 = 0;
    while t < ticks
        invariant
            t <= ticks,
            replica_gen_ok::<E, A>(pop_size as nat),
            replica_steps_ok::<A>(pop_size as nat, t as nat),
            env.population() == Seq::new(
                pop_size as nat,
                |i: int| agent_after(A::fresh(), t as nat),
            ),
        decreases ticks - t,
    {
        let ghost pop = env.population();
        match tick(&mut env) {
            Ok(()) => {
                proof {
                    if pop_size > 0 {
                        assert(pop[0].tick_ok());
                        assert(pop[0] == agent_after(A::fresh(), t as nat));
                    }
                    assert(ticked(pop) =~= Seq::new(
                        pop_size as nat,
                        |i: int| agent_after(A::fresh(), (t + 1) as nat),
                    ));
                }
            },
            Err(e) => {
                proof {
                    assert(!all_tick_ok(pop));
                    let i = choose|i: int| 0 <= i < pop.len() && !(#[trigger] pop[i]).tick_ok();
                    assert(!agent_after(A::fresh(), t as nat).tick_ok());
                    if ticks_ok_upto(A::fresh(), ticks as nat) {
                        lemma_ticks_ok_prefix(A::fresh(), t as nat, ticks as nat);
                    }
                    assert(!replica_steps_ok::<A>(pop_size as nat, ticks as nat));
                }
                return Err(e);
            },
        }
        t = t + 1;
    }
    let ghost pop = env.population();
    let mut sink = Sink::new();
    match collect(env, &mut sink) {
        Ok(()) => {
            proof {
                assert(sink@ =~= replica_records::<A>(pop_size as nat, ticks as nat)) by {
                    assert(records_of(pop) =~= replica_records::<A>(
                        pop_size as nat,
                        ticks as nat,
                    ));
                    assert(sink@ =~= Seq::<u64>::empty() + records_of(pop));
                }
                if pop_size > 0 {
                    assert(pop[0].collect_ok());
                }
            }
            Ok(sink)
        },
        Err(e) => {
            proof {
                assert(!all_collect_ok(pop));
                let i = choose|i: int| 0 <= i < pop.len() && !(#[trigger] pop[i]).collect_ok();
                assert(!agent_after(A::fresh(), ticks as nat).collect_ok());
            }
            Err(e)
        },
    }
}

/// How many waves a batch of `runs` replicas makes with `workers` workers:
/// the number of full waves, plus one more for a remainder. This is the
/// ceiling of `runs / workers`.
pub open spec fn wave_count(runs: nat, workers: nat) -> nat
    recommends
        workers > 0,
{
    runs / workers + if runs % workers == 0 {
        0nat
    } else {
        1nat
    }
}

/// The total of a sequence of wave sizes.
pub open spec fn sum_of(s: Seq<u64>) -> int
    decreases s.len(),
{
    if s.len() == 0 {
        0
    } else {
        sum_of(s.drop_last()) + s.last()
    }
}

/// Partition a batch of `runs` replicas into waves for `workers` workers:
/// every wave is full except possibly the last, no wave is empty or larger
/// than the worker count, and together the waves carry exactly the `runs`
/// replicas.
pub fn wave_sizes(runs: u64, workers: u64) -> (r: Vec<u64>)
    requires
        workers >= 1,
    ensures
        r@.len() == wave_count(runs as nat, workers as nat),
        forall|i: int| 0 <= i < r@.len() ==> 1 <= #[trigger] r@[i] <= workers,
        forall|i: int| 0 <= i < r@.len() - 1 ==> #[trigger] r@[i] == workers,
        r@.len() > 0 ==> r@.last() == if runs % workers == 0 {
            workers as int
        } else {
            (runs % workers) as int
        },
        sum_of(r@) == runs,
{
    let full: u64 = runs / workers;
    let rem: u64 = runs % workers;
    let mut sizes: Vec<u64> = Vec::new();
    let mut i: u64 = 0;
    while i < full
        invariant
            i <= full,
            workers >= 1,
            sizes@.len() == i,
            forall|j: int| 0 <= j < i ==> #[trigger] sizes@[j] == workers,
            sum_of(sizes@) == i * workers,
        decreases full - i,
    {
        let ghost before = sizes@;
        sizes.push(workers);
        proof {
            assert(sizes@.drop_last() =~= before);
            assert((i + 1) * workers == i * workers + workers) by (nonlinear_arith);
        }
        i = i + 1;
    }
    proof {
        vstd::arithmetic::div_mod::lemma_fundamental_div_mod(runs as int, workers as int);
        assert(runs == workers * full + rem);
        assert(sum_of(sizes@) == full * workers);
        assert(workers * full == full * workers) by (nonlinear_arith);
    }
    if rem > 0 {
        let ghost before = sizes@;
        sizes.push(rem);
        proof {
            assert(sizes@.drop_last() =~= before);
            assert(sizes@.last() == rem);
            assert(sum_of(sizes@) == sum_of(before) + rem);
        }
    }
    sizes
}

/// Relies on num_cpus::get: the number of logical processors of the host,
/// which is always at least one.
#[verifier::external_body]
fn logical_cpus() -> (n: usize)
    ensures
        n >= 1,
{
    num_cpus::get()
}

/// The worker count a batch uses when the caller names none: the host's
/// available parallelism, and never less than one worker.
pub fn default_worker_count() -> (w: u64)
    ensures
        w >= 1,
{
    let n = logical_cpus();
    n as u64
}

/// Join one wave: given the results of its replicas in wave order and the
/// batch-wide position of the wave's first replica, report the wave's
/// first failure, or nothing when every replica of the wave is done. The
/// batch fails fast on what this reports, and sibling results after the
/// failing one are left alone.
pub fn join_wave(results: &Vec<Result<(), SimError>>, first_replica: u64) -> (r: Option<
    ReplicaFailure,
>)
    requires
        first_replica + results@.len() <= u64::MAX,
    ensures
        r is None <==> (forall|i: int| 0 <= i < results@.len() ==> (#[trigger] results@[i]) is Ok),
        r is Some ==> exists|k: int|
            0 <= k < results@.len() && (#[trigger] results@[k]) is Err
            && (forall|j: int| 0 <= j < k ==> (#[trigger] results@[j]) is Ok)
            && r->Some_0 == (ReplicaFailure {
                replica: (first_replica + k) as u64,
                error: results@[k]->Err_0,
            }),
{
    let n = results.len();
    let mut i: usize = 0;
    while i < n
        invariant
            i <= n,
            n == results@.len(),
            first_replica + n <= u64::MAX,
            forall|j: int| 0 <= j < i ==> (#[trigger] results@[j]) is Ok,
        decreases n - i,
    {
        match &results[i] {
            Result::Ok(_) => {},
            Result::Err(e) => {
                return Some(ReplicaFailure { replica: first_replica + (i as u64), error: *e });
            },
        }
        i = i + 1;
    }
    None
}

} // verus!
