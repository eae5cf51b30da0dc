//! Verified core of an authenticated proving-node worker: task difficulty
//! filtering, the pool-wide task quota, cooperative shutdown, the per-loop
//! fetch / prove / submit state machine, signed orchestrator requests and the
//! claim check of the verifying party.

pub mod difficulty;
pub mod quota;
pub mod shutdown;
pub mod events;
pub mod task_loop;
pub mod config;
pub mod requests;
pub mod worker;
pub mod claim;
