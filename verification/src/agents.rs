//! Ready-made deterministic agents. [`CounterAgent`] ages by one per tick
//! and reports its age; [`BoundedAgent`] does the same up to a capacity
//! fixed at construction, past which it refuses to tick, and it refuses to
//! report once saturated. Both give simulations and tests an agent whose
//! whole behaviour is pinned down by the model in [`crate::traits`].

use vstd::prelude::*;

use crate::sink::Sink;
use crate::traits::Agent;

verus! {

/// An agent whose observable state is an age that grows by exactly one per
/// tick, starting at zero. A tick is refused only at the limit of the
/// counter itself; reporting always succeeds and emits the age.
#[derive(Clone, Copy, PartialEq, Eq, Structural, Debug)]
pub struct CounterAgent {
    /// How many ticks this agent has absorbed.
    pub age: u64,
}

impl Agent for CounterAgent {
    open spec fn fresh_ok() -> bool {
        true
    }

    open spec fn fresh() -> Self {
        CounterAgent { age: 0 }
    }

    open spec fn tick_ok(&self) -> bool {
        self.age < u64::MAX
    }

    open spec fn tick_spec(&self) -> Self {
        CounterAgent { age: (self.age + 1) as u64 }
    }

    open spec fn collect_ok(&self) -> bool {
        true
    }

    open spec fn record_spec(&self) -> u64 {
        self.age
    }

    fn generate() -> (r: Result<Self, &'static str>) {
        Ok(CounterAgent { age: 0 })
    }

    fn tick(&mut self) -> (r: Result<(), &'static str>) {
        if self.age < u64::MAX {
            self.age = self.age + 1;
            Ok(())
        } else {
            Err("counter agent cannot age further")
        }
    }

    fn collect(&self, sink: &mut Sink) -> (r: Result<(), &'static str>) {
        sink.emit(self.age);
        Ok(())
    }
}

/// An agent with a capacity fixed at construction: it ages by one per tick
/// while below the capacity and refuses the tick that would pass it, and
/// once saturated it refuses to report. It cannot be generated without a
/// capacity, so building a population of it from scratch fails.
#[derive(Clone, Copy, PartialEq, Eq, Structural, Debug)]
pub struct BoundedAgent {
    /// How many ticks this agent has absorbed.
    pub age: u64,
    /// How many ticks this agent tolerates in all.
    pub capacity: u64,
}

impl BoundedAgent {
    /// A new agent that will absorb exactly `capacity` ticks.
    pub fn new(capacity: u64) -> (a: BoundedAgent)
        ensures
            a == (BoundedAgent { age: 0, capacity }),
    {
        BoundedAgent { age: 0, capacity }
    }
}

impl Agent for BoundedAgent {
    open spec fn fresh_ok() -> bool {
        false
    }

    open spec fn fresh() -> Self {
        BoundedAgent { age: 0, capacity: 0 }
    }

    open spec fn tick_ok(&self) -> bool {
        self.age < self.capacity
    }

    open spec fn tick_spec(&self) -> Self {
        BoundedAgent { age: (self.age + 1) as u64, capacity: self.capacity }
    }

    open spec fn collect_ok(&self) -> bool {
        self.age < self.capacity
    }

    open spec fn record_spec(&self) -> u64 {
        self.age
    }

    fn generate() -> (r: Result<Self, &'static str>) {
        Err("a bounded agent needs an explicit capacity")
    }

    fn tick(&mut self) -> (r: Result<(), &'static str>) {
        if self.age < self.capacity {
            self.age = self.age + 1;
            Ok(())
        } else {
            Err("bounded agent is out of capacity")
        }
    }

    fn collect(&self, sink: &mut Sink) -> (r: Result<(), &'static str>) {
        if self.age < self.capacity {
            sink.emit(self.age);
            Ok(())
        } else {
            Err("bounded agent is saturated")
        }
    }
}

} // verus!
