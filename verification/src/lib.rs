//! An agent-based simulation engine: agents are units of local mutable
//! state advanced in discrete steps by an environment that owns them, and a
//! batch layer partitions many independent simulation replicas into waves
//! for a fixed pool of workers.

pub mod agents;
pub mod batch;
pub mod errors;
pub mod functions;
pub mod laws;
pub mod sink;
pub mod traits;

pub use errors::SimError;
pub use traits::Agent;
pub use traits::Environment;
