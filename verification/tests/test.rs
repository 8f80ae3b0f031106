use sim_rust::agents::BoundedAgent;
use sim_rust::agents::CounterAgent;
use sim_rust::batch::default_worker_count;
use sim_rust::batch::join_wave;
use sim_rust::batch::run_replica;
use sim_rust::batch::wave_sizes;
use sim_rust::errors::ReplicaFailure;
use sim_rust::errors::SimError;
use sim_rust::functions::DefaultEnvironment;
use sim_rust::functions::collect;
use sim_rust::functions::generate_default_env;
use sim_rust::functions::generate_env;
use sim_rust::functions::tick;
use sim_rust::functions::tick_collect;
use sim_rust::sink::Sink;
use sim_rust::Agent;
use sim_rust::Environment;

#[test]
fn test_tick() -> Result<(), &'static str> {
    let mut env = generate_default_env::<CounterAgent>(10).map_err(|e| e.message())?;
    let new_agent = CounterAgent::generate()?;
    env.add_agent(new_agent)?;
    let new_agents: Vec<CounterAgent> = vec![
        CounterAgent::generate()?,
        CounterAgent::generate()?,
        CounterAgent::generate()?,
    ];
    env.add_agents(new_agents)?;
    for _ in 0..100 {
        tick(&mut env).map_err(|e| e.message())?;
    }
    Ok(())
}

#[test]
fn test_tick_collect_once() -> Result<(), &'static str> {
    let mut env = generate_default_env::<CounterAgent>(1000).map_err(|e| e.message())?;
    let new_agent = CounterAgent::generate()?;
    env.add_agent(new_agent)?;
    let new_agents: Vec<CounterAgent> = vec![
        CounterAgent::generate()?,
        CounterAgent::generate()?,
        CounterAgent::generate()?,
    ];
    env.add_agents(new_agents)?;
    for _ in 0..100 {
        tick(&mut env).map_err(|e| e.message())?;
    }
    let mut sink = Sink::new();
    collect(env, &mut sink).map_err(|e| e.message())?;
    Ok(())
}

#[test]
fn population_length_equals_pop_size() {
    for pop_size in [0u64, 1, 7, 64] {
        let env = generate_default_env::<CounterAgent>(pop_size).unwrap();
        assert_eq!(env.population_len() as u64, pop_size);
        let mut sink = Sink::new();
        collect(env, &mut sink).unwrap();
        assert_eq!(sink.len() as u64, pop_size);
    }
}

#[test]
fn counter_age_equals_step_count() {
    let mut env = generate_default_env::<CounterAgent>(10).unwrap();
    for _ in 0..100 {
        tick(&mut env).unwrap();
    }
    let mut sink = Sink::new();
    collect(env, &mut sink).unwrap();
    assert_eq!(sink.records(), &vec![100u64; 10]);
}

#[test]
fn collect_leaves_state_unchanged() {
    let agent = CounterAgent { age: 41 };
    let snapshot = agent;
    let mut sink = Sink::new();
    agent.collect(&mut sink).unwrap();
    assert_eq!(agent, snapshot);
    assert_eq!(sink.records(), &vec![41u64]);

    let env =
        DefaultEnvironment::generate(vec![CounterAgent { age: 3 }, CounterAgent { age: 5 }])
            .unwrap();
    let mut first = Sink::new();
    let mut second = Sink::new();
    env.collect(&mut first).unwrap();
    env.collect(&mut second).unwrap();
    assert_eq!(first.records(), second.records());
    assert_eq!(first.records(), &vec![3u64, 5]);
}

#[test]
fn added_agents_grow_population_and_get_ticked() {
    let mut env = generate_default_env::<CounterAgent>(4).unwrap();
    env.add_agent(CounterAgent { age: 10 }).unwrap();
    env.add_agents(vec![CounterAgent { age: 20 }, CounterAgent { age: 30 }]).unwrap();
    assert_eq!(env.population_len(), 7);
    for _ in 0..5 {
        tick(&mut env).unwrap();
    }
    let mut sink = Sink::new();
    collect(env, &mut sink).unwrap();
    assert_eq!(sink.records(), &vec![5u64, 5, 5, 5, 15, 25, 35]);
}

#[test]
fn failed_generation_yields_no_environment() {
    let result = generate_default_env::<BoundedAgent>(5);
    match result {
        Err(SimError::Construction(_)) => {}
        _ => panic!("a population of bounded agents must fail to build"),
    }
    let empty = generate_default_env::<BoundedAgent>(0);
    assert!(empty.is_ok());
}

#[test]
fn batch_of_100_runs_on_4_workers_makes_25_full_waves() {
    let waves = wave_sizes(100, 4);
    assert_eq!(waves.len(), 25);
    assert!(waves.iter().all(|w| *w == 4));
    assert_eq!(waves.iter().sum::<u64>(), 100);
}

#[test]
fn wave_partition_covers_remainders() {
    let waves = wave_sizes(10, 3);
    assert_eq!(waves, vec![3u64, 3, 3, 1]);
    assert_eq!(wave_sizes(0, 8), Vec::<u64>::new());
    assert_eq!(wave_sizes(5, 8), vec![5u64]);
    for (runs, workers) in [(1u64, 1u64), (99, 10), (100, 10), (101, 10)] {
        let waves = wave_sizes(runs, workers);
        assert_eq!(waves.len() as u64, (runs + workers - 1) / workers);
        assert_eq!(waves.iter().sum::<u64>(), runs);
    }
}

#[test]
fn deterministic_replica_end_to_end() {
    let sink = run_replica::<DefaultEnvironment<CounterAgent>, CounterAgent>(10, 100).unwrap();
    assert_eq!(sink.records(), &vec![100u64; 10]);
}

#[test]
fn replica_failing_on_step_7_is_reported_at_join() {
    // One replica whose single agent tolerates six ticks, so its seventh
    // step of ten fails; a sibling replica of counter agents goes through.
    let mut faulty = DefaultEnvironment::generate(vec![BoundedAgent::new(6)]).unwrap();
    let mut faulty_result: Result<(), SimError> = Ok(());
    let mut failed_at = 0u64;
    for step in 1..=10u64 {
        if let Err(e) = tick(&mut faulty) {
            faulty_result = Err(e);
            failed_at = step;
            break;
        }
    }
    assert_eq!(failed_at, 7);

    let sibling_result =
        run_replica::<DefaultEnvironment<CounterAgent>, CounterAgent>(3, 10).map(|_| ());
    assert!(sibling_result.is_ok());

    let results = vec![sibling_result, faulty_result];
    let failure = join_wave(&results, 40).unwrap();
    assert_eq!(failure.replica, 41);
    assert!(matches!(failure.error, SimError::Step(_)));
}

#[test]
fn join_wave_reports_first_failure_only() {
    let results: Vec<Result<(), SimError>> = vec![
        Ok(()),
        Err(SimError::Step("first")),
        Err(SimError::Collect("second")),
        Ok(()),
    ];
    let failure = join_wave(&results, 0).unwrap();
    assert_eq!(
        failure,
        ReplicaFailure { replica: 1, error: SimError::Step("first") }
    );
    let all_ok: Vec<Result<(), SimError>> = vec![Ok(()), Ok(())];
    assert!(join_wave(&all_ok, 17).is_none());
}

#[test]
fn saturated_agent_fails_the_collect_pass() {
    let env = DefaultEnvironment::generate(vec![
        BoundedAgent::new(2),
        BoundedAgent::new(0),
        BoundedAgent::new(2),
    ])
    .unwrap();
    let mut sink = Sink::new();
    match collect(env, &mut sink) {
        Err(SimError::Collect(_)) => {}
        _ => panic!("a saturated agent must abort the collect pass"),
    }
    // the agent before the saturated one was already collected
    assert_eq!(sink.records(), &vec![0u64]);
}

#[test]
fn tick_collect_takes_a_mid_run_snapshot() {
    let mut env = generate_default_env::<CounterAgent>(3).unwrap();
    let mut sink = Sink::new();
    tick_collect(&mut env, &mut sink).unwrap();
    assert_eq!(sink.records(), &vec![1u64, 1, 1]);
    tick_collect(&mut env, &mut sink).unwrap();
    assert_eq!(sink.records(), &vec![1u64, 1, 1, 2, 2, 2]);
}

#[test]
fn step_failure_leaves_population_intact() {
    let mut env = DefaultEnvironment::generate(vec![
        BoundedAgent::new(9),
        BoundedAgent::new(1),
        BoundedAgent::new(9),
    ])
    .unwrap();
    assert_eq!(env.population_len(), 3);
    assert!(tick(&mut env).is_ok());
    match tick(&mut env) {
        Err(SimError::Step(_)) => {}
        _ => panic!("an out-of-capacity agent must fail the step"),
    }
    // nothing was lost: the failed step kept all three agents
    assert_eq!(env.population_len(), 3);
}

#[test]
fn custom_environment_generation() {
    let env = generate_env::<DefaultEnvironment<CounterAgent>, CounterAgent>(12).unwrap();
    let mut sink = Sink::new();
    collect(env, &mut sink).unwrap();
    assert_eq!(sink.len(), 12);
}

#[test]
fn replica_of_ungeneratable_agents_reports_construction() {
    match run_replica::<DefaultEnvironment<BoundedAgent>, BoundedAgent>(4, 10) {
        Err(SimError::Construction(_)) => {}
        _ => panic!("generation of bounded agents must fail the replica"),
    }
}

#[test]
fn default_worker_count_is_at_least_one() {
    assert!(default_worker_count() >= 1);
}

#[test]
fn error_messages_name_the_failing_agent() {
    let e = match generate_default_env::<BoundedAgent>(1) {
        Err(e) => e,
        Ok(_) => panic!("generation of bounded agents must fail"),
    };
    assert_eq!(e.message(), "a bounded agent needs an explicit capacity");
    assert_eq!(SimError::Step("tired").message(), "tired");
    assert_eq!(SimError::Collect("mute").message(), "mute");
}

#[test]
fn sink_keeps_records_in_emission_order() {
    let mut sink = Sink::new();
    assert_eq!(sink.len(), 0);
    sink.emit(5);
    sink.emit(3);
    sink.emit(5);
    assert_eq!(sink.records(), &vec![5u64, 3, 5]);
    assert_eq!(sink.len(), 3);
}
