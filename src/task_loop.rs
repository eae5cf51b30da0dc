//! The decisions of one worker loop: fetch a task, prove it, submit the
//! proof, report, and go round again until shutdown or the quota stops it.
//!
//! The loop itself is a state machine. The caller performs the returned
//! action (a request, a proving run) and feeds what came back in as the next
//! input; everything decided in between is here.

use vstd::prelude::*;
use crate::difficulty::{TaskDifficulty, within_cap, is_within_cap};
use crate::events::{Event, OrchestratorError};
use crate::quota::TaskQuota;
use crate::shutdown::ShutdownState;

verus! {

/// Exit code of a guest program that ran to completion.
pub const EXIT_SUCCESS: u32 = 0;

/// A unit of work handed out by the orchestrator.
#[derive(Clone, Debug)]
pub struct Task {
    pub task_id: String,
    pub difficulty: TaskDifficulty,
    pub public_inputs: Vec<u8>,
}

#[derive(Clone, Debug)]
pub enum LoopPhase {
    /// Between attempts.
    Idle,
    /// A fetch request is out; the loop holds a quota claim.
    Fetching,
    /// The prover runs on the task; the loop holds a quota claim.
    Proving { task_id: String },
    /// The proof is being submitted; the loop holds a quota claim.
    Submitting { task_id: String },
    /// The loop has exited.
    Stopped,
}

impl LoopPhase {
    /// An attempt is under way, and so holds a quota claim.
    pub open spec fn in_attempt(&self) -> bool {
        self is Fetching || self is Proving || self is Submitting
    }

    /// Between attempts or exited.
    pub open spec fn at_rest(&self) -> bool {
        self is Idle || self is Stopped
    }
}

/// What a loop hands back after performing the previous action.
#[derive(Clone, Debug)]
pub enum LoopInput {
    /// The loop stands at an iteration boundary.
    Ready,
    Fetched(Task),
    FetchFailed(OrchestratorError),
    Proved { proof: Vec<u8>, exit_code: u32 },
    ProveFailed(String),
    Submitted,
    SubmitFailed(OrchestratorError),
}

/// What the loop is to do next.
#[derive(Clone, Debug)]
pub enum Action {
    /// Ask the orchestrator for a task no harder than the cap.
    Fetch { max_difficulty: Option<TaskDifficulty> },
    /// Run the prover on the task.
    Prove { task: Task },
    /// Submit the proof of the task.
    Submit { task_id: String, proof: Vec<u8> },
    /// Go round again: feed `Ready` in.
    Next,
    /// No quota slot is free while other attempts run: feed `Ready` in later.
    Wait,
    /// Exit the loop.
    Stop,
}

#[derive(Clone, Debug)]
pub struct Transition {
    pub action: Action,
    /// The event to emit, if the step ended an attempt.
    pub event: Option<Event>,
    /// Broadcast on the local shutdown channel: the quota has been reached.
    pub broadcast_local: bool,
}

#[derive(Clone, Copy, Debug, PartialEq, Eq, Structural)]
pub enum StepError {
    /// The input does not answer the action of the current phase.
    UnexpectedInput,
}

/// The input answers the action that the phase stands for.
pub open spec fn input_fits(phase: LoopPhase, input: LoopInput) -> bool {
    match phase {
        LoopPhase::Idle => input is Ready,
        LoopPhase::Fetching => input is Fetched || input is FetchFailed,
        LoopPhase::Proving { .. } => input is Proved || input is ProveFailed,
        LoopPhase::Submitting { .. } => input is Submitted || input is SubmitFailed,
        LoopPhase::Stopped => true,
    }
}

pub struct TaskLoop {
    pub phase: LoopPhase,
    pub max_difficulty: Option<TaskDifficulty>,
}

impl TaskLoop {
    pub fn new(max_difficulty: Option<TaskDifficulty>) -> (r: TaskLoop)
        ensures
            r.phase is Idle,
            r.max_difficulty == max_difficulty,
    {
        TaskLoop { phase: LoopPhase::Idle, max_difficulty }
    }

    pub fn is_stopped(&self) -> (r: bool)
        ensures
            r == self.phase is Stopped,
    {
        match self.phase {
            LoopPhase::Stopped => true,
            _ => false,
        }
    }

    /// Ends the attempt in progress as failed and reports `message`.
    fn fail_attempt(&mut self, quota: &mut TaskQuota, message: String, fatal: bool) -> (t: Transition)
        requires
            old(quota).wf(),
            old(quota).in_flight > 0,
        ensures
            final(quota).wf(),
            final(quota).max_tasks == old(quota).max_tasks,
            final(quota).completed == old(quota).completed,
            final(quota).in_flight == old(quota).in_flight - 1,
            final(self).max_difficulty == old(self).max_difficulty,
            t.event == Some(Event::Error(message)),
            !t.broadcast_local,
            fatal ==> final(self).phase is Stopped && t.action is Stop,
            !fatal ==> final(self).phase is Idle && t.action is Next,
    {
        quota.settle(false);
        if fatal {
            self.phase = LoopPhase::Stopped;
            Transition { action: Action::Stop, event: Some(Event::Error(message)), broadcast_local: false }
        } else {
            self.phase = LoopPhase::Idle;
            Transition { action: Action::Next, event: Some(Event::Error(message)), broadcast_local: false }
        }
    }

    /// Decides the loop's next action from its phase, the shared quota, the
    /// shutdown signals it has observed and the outcome of the last action.
    pub fn step(&mut self, quota: &mut TaskQuota, shutdown: &ShutdownState, input: LoopInput) -> (r: Result<Transition, StepError>)
        requires
            old(quota).wf(),
            old(self).phase.in_attempt() ==> old(quota).in_flight > 0,
        ensures
            final(quota).wf(),
            final(quota).max_tasks == old(quota).max_tasks,
            final(self).max_difficulty == old(self).max_difficulty,
            // An input that does not answer the phase changes nothing.
            r is Err <==> !input_fits(old(self).phase, input),
            r is Err ==> *final(self) == *old(self) && *final(quota) == *old(quota),
            r matches Ok(t) ==> {
                // Exactly one event for each attempt that ends, and none otherwise.
                &&& (t.event is Some <==> old(self).phase.in_attempt() && final(self).phase.at_rest())
                // A completion is counted exactly when it is reported.
                &&& (t.event matches Some(Event::Completed(_))) <==> final(quota).completed == old(quota).completed + 1
                &&& final(quota).completed <= old(quota).completed + 1
                // A claim is taken when an attempt starts and given back when it ends.
                &&& (old(self).phase.in_attempt() && final(self).phase.at_rest()) ==> final(quota).in_flight == old(quota).in_flight - 1
                &&& (old(self).phase.at_rest() && final(self).phase.in_attempt()) ==> final(quota).in_flight == old(quota).in_flight + 1
                &&& (old(self).phase.in_attempt() == final(self).phase.in_attempt()) ==> final(quota).in_flight == old(quota).in_flight
                // Nothing new is fetched once shutdown is observed or the quota is spent.
                &&& (t.action is Fetch) ==> !shutdown.triggered_spec() && old(quota).has_room()
                        && old(self).phase is Idle && t.action->max_difficulty == old(self).max_difficulty
                // Only tasks within the difficulty cap are proved.
                &&& (t.action is Prove) ==> within_cap(t.action->task.difficulty, old(self).max_difficulty)
                // The local signal goes out when, and only when, this step reaches the quota.
                &&& t.broadcast_local <==> (t.event matches Some(Event::Completed(_)) && final(quota).exhausted_spec())
                // The action matches the phase the loop is left in.
                &&& (t.action is Stop <==> final(self).phase is Stopped)
            },
            // At an iteration boundary.
            (r is Ok && old(self).phase is Idle) ==> {
                let t = r->Ok_0;
                if shutdown.triggered_spec() {
                    final(self).phase is Stopped && *final(quota) == *old(quota)
                } else if old(quota).has_room() {
                    final(self).phase is Fetching && t.action is Fetch
                } else if old(quota).exhausted_spec() {
                    final(self).phase is Stopped && *final(quota) == *old(quota)
                } else {
                    final(self).phase is Idle && t.action is Wait && *final(quota) == *old(quota)
                }
            },
            // A fetched task.
            (old(self).phase is Fetching && input is Fetched) ==> {
                let task = input->Fetched_0;
                let t = r->Ok_0;
                if within_cap(task.difficulty, old(self).max_difficulty) {
                    final(self).phase == LoopPhase::Proving { task_id: task.task_id }
                        && t.action == Action::Prove { task }
                } else {
                    final(self).phase is Idle && t.action is Next && t.event matches Some(Event::Error(_))
                }
            },
            // A failed request: fatal errors end the loop, others are retried.
            (old(self).phase is Fetching && input is FetchFailed) ==> {
                let e = input->FetchFailed_0;
                let t = r->Ok_0;
                &&& (t.event matches Some(Event::Error(m)) && m@ == e.message_spec())
                &&& (e.is_fatal_spec() ==> final(self).phase is Stopped)
                &&& (!e.is_fatal_spec() ==> final(self).phase is Idle && t.action is Next)
            },
            // A proving run: only a successful exit is submitted.
            (old(self).phase is Proving && input is Proved) ==> {
                let t = r->Ok_0;
                if input->exit_code == EXIT_SUCCESS {
                    final(self).phase == LoopPhase::Submitting { task_id: old(self).phase->Proving_task_id }
                        && t.action == Action::Submit {
                            task_id: old(self).phase->Proving_task_id,
                            proof: input->proof,
                        }
                } else {
                    final(self).phase is Idle && t.action is Next && t.event matches Some(Event::Error(_))
                }
            },
            (old(self).phase is Proving && input is ProveFailed) ==> {
                let t = r->Ok_0;
                final(self).phase is Idle && t.action is Next
                    && t.event == Some(Event::Error(input->ProveFailed_0))
            },
            // An accepted submission completes the task.
            (old(self).phase is Submitting && input is Submitted) ==> {
                let t = r->Ok_0;
                &&& t.event == Some(Event::Completed(old(self).phase->Submitting_task_id))
                &&& final(quota).completed == old(quota).completed + 1
                &&& (final(quota).exhausted_spec() ==> final(self).phase is Stopped)
                &&& (!final(quota).exhausted_spec() ==> final(self).phase is Idle && t.action is Next)
            },
            (old(self).phase is Submitting && input is SubmitFailed) ==> {
                let e = input->SubmitFailed_0;
                let t = r->Ok_0;
                &&& (t.event matches Some(Event::Error(m)) && m@ == e.message_spec())
                &&& (e.is_fatal_spec() ==> final(self).phase is Stopped)
                &&& (!e.is_fatal_spec() ==> final(self).phase is Idle && t.action is Next)
            },
            // An exited loop stays exited.
            old(self).phase is Stopped ==> final(self).phase is Stopped && *final(quota) == *old(quota),
    {
        match (&self.phase, input) {
            (LoopPhase::Idle, LoopInput::Ready) => {
                if shutdown.is_triggered() {
                    self.phase = LoopPhase::Stopped;
                    Ok(Transition { action: Action::Stop, event: None, broadcast_local: false })
                } else if quota.try_claim() {
                    self.phase = LoopPhase::Fetching;
                    Ok(Transition {
                        action: Action::Fetch { max_difficulty: self.max_difficulty },
                        event: None,
                        broadcast_local: false,
                    })
                } else if quota.is_exhausted() {
                    self.phase = LoopPhase::Stopped;
                    Ok(Transition { action: Action::Stop, event: None, broadcast_local: false })
                } else {
                    Ok(Transition { action: Action::Wait, event: None, broadcast_local: false })
                }
            },
            (LoopPhase::Fetching, LoopInput::Fetched(task)) => {
                if is_within_cap(task.difficulty, self.max_difficulty) {
                    self.phase = LoopPhase::Proving { task_id: task.task_id.clone() };
                    Ok(Transition { action: Action::Prove { task }, event: None, broadcast_local: false })
                } else {
                    let message = "task difficulty is above the configured cap".to_owned();
                    Ok(self.fail_attempt(quota, message, false))
                }
            },
            (LoopPhase::Fetching, LoopInput::FetchFailed(e)) => {
                let fatal = e.is_fatal();
                let message = e.message();
                Ok(self.fail_attempt(quota, message, fatal))
            },
            (LoopPhase::Proving { task_id }, LoopInput::Proved { proof, exit_code }) => {
                if exit_code == EXIT_SUCCESS {
                    let task_id = task_id.clone();
                    self.phase = LoopPhase::Submitting { task_id: task_id.clone() };
                    Ok(Transition { action: Action::Submit { task_id, proof }, event: None, broadcast_local: false })
                } else {
                    let message = "guest program exited with a failure code".to_owned();
                    Ok(self.fail_attempt(quota, message, false))
                }
            },
            (LoopPhase::Proving { .. }, LoopInput::ProveFailed(message)) => {
                Ok(self.fail_attempt(quota, message, false))
            },
            (LoopPhase::Submitting { task_id }, LoopInput::Submitted) => {
                let task_id = task_id.clone();
                let reached = quota.settle(true);
                if reached {
                    self.phase = LoopPhase::Stopped;
                    Ok(Transition { action: Action::Stop, event: Some(Event::Completed(task_id)), broadcast_local: true })
                } else {
                    self.phase = LoopPhase::Idle;
                    Ok(Transition { action: Action::Next, event: Some(Event::Completed(task_id)), broadcast_local: false })
                }
            },
            (LoopPhase::Submitting { .. }, LoopInput::SubmitFailed(e)) => {
                let fatal = e.is_fatal();
                let message = e.message();
                Ok(self.fail_attempt(quota, message, fatal))
            },
            (LoopPhase::Stopped, _) => {
                Ok(Transition { action: Action::Stop, event: None, broadcast_local: false })
            },
            _ => Err(StepError::UnexpectedInput),
        }
    }
}

} // verus!
