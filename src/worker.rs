//! The authenticated worker: the node's identity, its configuration and the
//! pool of task loops that share them.

use vstd::prelude::*;
use vstd::string::StringSliceAdditionalSpecFns;
use ed25519_dalek::{Signer, SigningKey};
use crate::config::WorkerConfig;
use crate::difficulty::TaskDifficulty;
use crate::quota::TaskQuota;
use crate::requests::{fetch_payload, fetch_request_bytes, submit_payload, submit_request_bytes};
use crate::task_loop::TaskLoop;

verus! {

#[verifier::external_type_specification]
#[verifier::external_body]
pub struct ExSigningKey(ed25519_dalek::SigningKey);

/// Relies on ed25519_dalek's `Signer::sign` for `SigningKey`: the Ed25519
/// signature of `message` under the key, which never fails.
#[verifier::external_body]
fn sign_message(key: &SigningKey, message: &Vec<u8>) -> (r: [u8; 64]) {
    key.sign(message.as_slice()).to_bytes()
}

/// Relies on ed25519_dalek's `SigningKey::verifying_key` and
/// `VerifyingKey::to_bytes`: the compressed public half of the key.
#[verifier::external_body]
fn public_key_of(key: &SigningKey) -> (r: [u8; 32]) {
    key.verifying_key().to_bytes()
}

/// A request in canonical form, with the node's signature over it.
pub struct SignedRequest {
    pub payload: Vec<u8>,
    pub signature: [u8; 64],
    pub public_key: [u8; 32],
}

/// The node's identity. The signing key stays here for the whole run; loops
/// only ever borrow it.
pub struct NodeIdentity {
    pub node_id: u64,
    pub signing_key: SigningKey,
}

impl NodeIdentity {
    pub fn new(node_id: u64, signing_key: SigningKey) -> (r: NodeIdentity)
        ensures
            r.node_id == node_id,
    {
        NodeIdentity { node_id, signing_key }
    }

    pub fn public_key(&self) -> [u8; 32] {
        public_key_of(&self.signing_key)
    }

    /// The signed request for a task no harder than `max_difficulty`.
    pub fn fetch_request(&self, max_difficulty: Option<TaskDifficulty>) -> (r: SignedRequest)
        ensures
            r.payload@ == fetch_payload(self.node_id, max_difficulty),
    {
        let payload = fetch_request_bytes(self.node_id, max_difficulty);
        let signature = sign_message(&self.signing_key, &payload);
        SignedRequest { payload, signature, public_key: public_key_of(&self.signing_key) }
    }

    /// The signed submission of `proof` for the task `task_id`.
    pub fn submit_request(&self, task_id: &str, proof: &[u8]) -> (r: SignedRequest)
        ensures
            r.payload@ == submit_payload(self.node_id, task_id.spec_bytes(), proof@),
    {
        let payload = submit_request_bytes(self.node_id, task_id, proof);
        let signature = sign_message(&self.signing_key, &payload);
        SignedRequest { payload, signature, public_key: public_key_of(&self.signing_key) }
    }
}

/// Supervises `num_workers` task loops that share one identity, one
/// configuration and one task quota.
pub struct AuthenticatedWorker {
    pub identity: NodeIdentity,
    pub config: WorkerConfig,
    pub max_tasks: Option<u32>,
}

impl AuthenticatedWorker {
    pub fn new(node_id: u64, signing_key: SigningKey, config: WorkerConfig, max_tasks: Option<u32>) -> (r: AuthenticatedWorker)
        ensures
            r.identity.node_id == node_id,
            r.config.num_workers == config.num_workers,
            r.config.max_difficulty == config.max_difficulty,
            r.config.environment == config.environment,
            r.config.client_id@ == config.client_id@,
            r.max_tasks == max_tasks,
    {
        AuthenticatedWorker { identity: NodeIdentity::new(node_id, signing_key), config, max_tasks }
    }

    /// The shared quota every loop of the pool claims from, empty at the start.
    pub fn task_quota(&self) -> (r: TaskQuota)
        ensures
            r.wf(),
            r.completed == 0,
            r.in_flight == 0,
            r.max_tasks == self.max_tasks,
    {
        TaskQuota::new(self.max_tasks)
    }

    /// One idle loop for each worker, each with the configured difficulty cap.
    pub fn task_loops(&self) -> (r: Vec<TaskLoop>)
        ensures
            r@.len() == self.config.num_workers,
            forall|i: int| 0 <= i < r@.len() ==> {
                &&& #[trigger] r@[i].phase is Idle
                &&& r@[i].max_difficulty == self.config.max_difficulty
            },
    {
        let mut loops: Vec<TaskLoop> = Vec::new();
        let mut i: usize = 0;
        while i < self.config.num_workers
            invariant
                i <= self.config.num_workers,
                loops@.len() == i,
                forall|j: int| 0 <= j < i ==> {
                    &&& #[trigger] loops@[j].phase is Idle
                    &&& loops@[j].max_difficulty == self.config.max_difficulty
                },
            decreases self.config.num_workers - i,
        {
            loops.push(TaskLoop::new(self.config.max_difficulty));
            i = i + 1;
        }
        loops
    }
}

} // verus!
