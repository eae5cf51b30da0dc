//! The configuration of one run.

use vstd::prelude::*;
use crate::difficulty::TaskDifficulty;

verus! {

/// Which orchestrator deployment the node talks to.
#[derive(Clone, Copy, Debug, PartialEq, Eq, Structural)]
pub enum Environment {
    Production,
    Staging,
    Beta,
    Local,
}

#[derive(Clone, Debug)]
pub struct WorkerConfig {
    pub environment: Environment,
    pub client_id: String,
    /// How many task loops run side by side.
    pub num_workers: usize,
    /// The hardest task the node accepts, if capped.
    pub max_difficulty: Option<TaskDifficulty>,
}

impl WorkerConfig {
    pub fn new(environment: Environment, client_id: String, num_workers: usize) -> (r: WorkerConfig)
        ensures
            r.environment == environment,
            r.client_id@ == client_id@,
            r.num_workers == num_workers,
            r.max_difficulty is None,
    {
        WorkerConfig { environment, client_id, num_workers, max_difficulty: None }
    }

    /// The same configuration with the difficulty cap set to `max_difficulty`.
    pub fn with_max_difficulty(self, max_difficulty: Option<TaskDifficulty>) -> (r: WorkerConfig)
        ensures
            r.environment == self.environment,
            r.client_id@ == self.client_id@,
            r.num_workers == self.num_workers,
            r.max_difficulty == max_difficulty,
    {
        WorkerConfig { max_difficulty, ..self }
    }
}

} // verus!
