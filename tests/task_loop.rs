use nexus_worker::difficulty::TaskDifficulty;
use nexus_worker::events::{Event, OrchestratorError};
use nexus_worker::quota::TaskQuota;
use nexus_worker::shutdown::ShutdownState;
use nexus_worker::task_loop::{Action, LoopInput, LoopPhase, StepError, Task, TaskLoop, Transition};

fn task(id: &str, difficulty: TaskDifficulty) -> Task {
    Task { task_id: id.to_string(), difficulty, public_inputs: vec![9, 1, 1] }
}

fn step(l: &mut TaskLoop, q: &mut TaskQuota, s: &ShutdownState, input: LoopInput) -> Transition {
    l.step(q, s, input).expect("input fits the phase")
}

/// Runs one loop against an orchestrator that hands out `tasks` in order and
/// then fails fatally; every proof succeeds. Returns the events emitted.
fn run_single(max_tasks: Option<u32>, cap: Option<TaskDifficulty>, tasks: Vec<Task>) -> Vec<Event> {
    let mut l = TaskLoop::new(cap);
    let mut q = TaskQuota::new(max_tasks);
    let s = ShutdownState::new();
    let mut queue = tasks.into_iter();
    let mut events = Vec::new();
    let mut input = LoopInput::Ready;
    for _ in 0..100 {
        let t = step(&mut l, &mut q, &s, input);
        if let Some(e) = t.event {
            events.push(e);
        }
        input = match t.action {
            Action::Fetch { .. } => match queue.next() {
                Some(task) => LoopInput::Fetched(task),
                None => LoopInput::FetchFailed(OrchestratorError::Fatal("no more tasks".to_string())),
            },
            Action::Prove { .. } => LoopInput::Proved { proof: vec![7, 7], exit_code: 0 },
            Action::Submit { .. } => LoopInput::Submitted,
            Action::Next | Action::Wait => LoopInput::Ready,
            Action::Stop => return events,
        };
    }
    panic!("the loop did not stop");
}

fn completed(events: &[Event]) -> usize {
    events.iter().filter(|e| matches!(e, Event::Completed(_))).count()
}

#[test]
fn single_worker_single_task_quota_completes_once() {
    let endless: Vec<Task> = (0..50).map(|i| task(&format!("t{}", i), TaskDifficulty::Medium)).collect();
    let events = run_single(Some(1), None, endless);
    assert_eq!(events.len(), 1);
    assert!(matches!(&events[0], Event::Completed(id) if id == "t0"));
}

#[test]
fn finite_queue_then_fatal_error_stops_loop() {
    let tasks = vec![
        task("a", TaskDifficulty::Small),
        task("b", TaskDifficulty::Small),
        task("c", TaskDifficulty::Small),
    ];
    let events = run_single(None, None, tasks);
    assert_eq!(events.len(), 4);
    assert!(matches!(&events[0], Event::Completed(id) if id == "a"));
    assert!(matches!(&events[1], Event::Completed(id) if id == "b"));
    assert!(matches!(&events[2], Event::Completed(id) if id == "c"));
    assert!(matches!(&events[3], Event::Error(m) if m == "no more tasks"));
}

#[test]
fn quota_bounds_completions_across_interleaved_loops() {
    let k: u32 = 2;
    let mut q = TaskQuota::new(Some(k));
    let s = ShutdownState::new();
    let mut loops: Vec<TaskLoop> = (0..3).map(|_| TaskLoop::new(None)).collect();
    // All three loops start an attempt before any finishes.
    let mut started = 0;
    let mut waiting = 0;
    for l in loops.iter_mut() {
        match step(l, &mut q, &s, LoopInput::Ready).action {
            Action::Fetch { .. } => started += 1,
            Action::Wait => waiting += 1,
            other => panic!("unexpected action {:?}", other),
        }
    }
    assert_eq!((started, waiting), (2, 1));
    let mut events = Vec::new();
    let mut broadcasts = 0;
    for (i, l) in loops.iter_mut().enumerate().take(2) {
        step(l, &mut q, &s, LoopInput::Fetched(task(&format!("t{}", i), TaskDifficulty::Small)));
        step(l, &mut q, &s, LoopInput::Proved { proof: vec![1], exit_code: 0 });
        let t = step(l, &mut q, &s, LoopInput::Submitted);
        if t.broadcast_local {
            broadcasts += 1;
        }
        events.extend(t.event);
    }
    assert_eq!(completed(&events), 2);
    assert_eq!(broadcasts, 1);
    assert!(q.is_exhausted());
    // The loops still running now stop instead of fetching.
    assert!(loops[1].is_stopped());
    for i in [0, 2] {
        let t = step(&mut loops[i], &mut q, &s, LoopInput::Ready);
        assert!(matches!(t.action, Action::Stop));
    }
    assert!(loops.iter().all(|l| l.is_stopped()));
    assert_eq!(q.completed, 2);
}

#[test]
fn task_above_difficulty_cap_is_not_proved() {
    let mut l = TaskLoop::new(Some(TaskDifficulty::Small));
    let mut q = TaskQuota::new(None);
    let s = ShutdownState::new();
    let t = step(&mut l, &mut q, &s, LoopInput::Ready);
    assert!(matches!(t.action, Action::Fetch { max_difficulty: Some(TaskDifficulty::Small) }));
    let t = step(&mut l, &mut q, &s, LoopInput::Fetched(task("big", TaskDifficulty::Large)));
    assert!(matches!(t.action, Action::Next));
    assert!(matches!(t.event, Some(Event::Error(_))));
    assert!(matches!(l.phase, LoopPhase::Idle));
    assert_eq!(q.in_flight, 0);
    assert_eq!(q.completed, 0);
}

#[test]
fn task_within_difficulty_cap_is_proved() {
    let mut l = TaskLoop::new(Some(TaskDifficulty::Medium));
    let mut q = TaskQuota::new(None);
    let s = ShutdownState::new();
    step(&mut l, &mut q, &s, LoopInput::Ready);
    let t = step(&mut l, &mut q, &s, LoopInput::Fetched(task("m", TaskDifficulty::Medium)));
    assert!(matches!(t.action, Action::Prove { ref task } if task.task_id == "m"));
    assert!(matches!(l.phase, LoopPhase::Proving { ref task_id } if task_id == "m"));
}

#[test]
fn shutdown_stops_new_fetches_but_not_in_flight_task() {
    let mut l = TaskLoop::new(None);
    let mut q = TaskQuota::new(None);
    let mut s = ShutdownState::new();
    step(&mut l, &mut q, &s, LoopInput::Ready);
    step(&mut l, &mut q, &s, LoopInput::Fetched(task("x", TaskDifficulty::Small)));
    s.fire_external();
    let t = step(&mut l, &mut q, &s, LoopInput::Proved { proof: vec![3], exit_code: 0 });
    assert!(matches!(t.action, Action::Submit { ref task_id, ref proof } if task_id == "x" && proof == &vec![3]));
    let t = step(&mut l, &mut q, &s, LoopInput::Submitted);
    assert!(matches!(t.event, Some(Event::Completed(ref id)) if id == "x"));
    let t = step(&mut l, &mut q, &s, LoopInput::Ready);
    assert!(matches!(t.action, Action::Stop));
    assert!(t.event.is_none());
    assert!(l.is_stopped());
}

#[test]
fn local_shutdown_stops_idle_loop() {
    let mut l = TaskLoop::new(None);
    let mut q = TaskQuota::new(None);
    let mut s = ShutdownState::new();
    s.fire_local();
    let t = step(&mut l, &mut q, &s, LoopInput::Ready);
    assert!(matches!(t.action, Action::Stop));
    assert_eq!(q.in_flight, 0);
}

#[test]
fn transient_errors_are_retried_and_fatal_errors_stop() {
    let mut l = TaskLoop::new(None);
    let mut q = TaskQuota::new(None);
    let s = ShutdownState::new();
    step(&mut l, &mut q, &s, LoopInput::Ready);
    let t = step(&mut l, &mut q, &s, LoopInput::FetchFailed(OrchestratorError::Transient("timeout".to_string())));
    assert!(matches!(t.action, Action::Next));
    assert!(matches!(t.event, Some(Event::Error(ref m)) if m == "timeout"));
    step(&mut l, &mut q, &s, LoopInput::Ready);
    step(&mut l, &mut q, &s, LoopInput::Fetched(task("y", TaskDifficulty::Small)));
    step(&mut l, &mut q, &s, LoopInput::Proved { proof: vec![], exit_code: 0 });
    let t = step(&mut l, &mut q, &s, LoopInput::SubmitFailed(OrchestratorError::Transient("busy".to_string())));
    assert!(matches!(t.action, Action::Next));
    assert!(matches!(t.event, Some(Event::Error(ref m)) if m == "busy"));
    step(&mut l, &mut q, &s, LoopInput::Ready);
    step(&mut l, &mut q, &s, LoopInput::Fetched(task("z", TaskDifficulty::Small)));
    step(&mut l, &mut q, &s, LoopInput::Proved { proof: vec![], exit_code: 0 });
    let t = step(&mut l, &mut q, &s, LoopInput::SubmitFailed(OrchestratorError::Fatal("revoked".to_string())));
    assert!(matches!(t.action, Action::Stop));
    assert!(matches!(t.event, Some(Event::Error(ref m)) if m == "revoked"));
    assert_eq!(q.completed, 0);
    assert_eq!(q.in_flight, 0);
}

#[test]
fn proving_failures_are_reported_and_loop_continues() {
    let mut l = TaskLoop::new(None);
    let mut q = TaskQuota::new(None);
    let s = ShutdownState::new();
    step(&mut l, &mut q, &s, LoopInput::Ready);
    step(&mut l, &mut q, &s, LoopInput::Fetched(task("p", TaskDifficulty::Small)));
    let t = step(&mut l, &mut q, &s, LoopInput::Proved { proof: vec![1, 2], exit_code: 1 });
    assert!(matches!(t.action, Action::Next));
    assert!(matches!(t.event, Some(Event::Error(_))));
    step(&mut l, &mut q, &s, LoopInput::Ready);
    step(&mut l, &mut q, &s, LoopInput::Fetched(task("p", TaskDifficulty::Small)));
    let t = step(&mut l, &mut q, &s, LoopInput::ProveFailed("crash".to_string()));
    assert!(matches!(t.action, Action::Next));
    assert!(matches!(t.event, Some(Event::Error(ref m)) if m == "crash"));
    assert!(matches!(l.phase, LoopPhase::Idle));
}

#[test]
fn one_event_per_attempt_in_order() {
    let tasks = vec![
        task("1", TaskDifficulty::Small),
        task("2", TaskDifficulty::Large),
        task("3", TaskDifficulty::Small),
    ];
    let events = run_single(None, Some(TaskDifficulty::Medium), tasks);
    // Three attempts served, one refused for difficulty, one fatal fetch.
    assert_eq!(events.len(), 4);
    assert!(matches!(&events[0], Event::Completed(id) if id == "1"));
    assert!(matches!(&events[1], Event::Error(_)));
    assert!(matches!(&events[2], Event::Completed(id) if id == "3"));
    assert!(matches!(&events[3], Event::Error(_)));
}

#[test]
fn unexpected_input_is_refused_and_changes_nothing() {
    let mut l = TaskLoop::new(None);
    let mut q = TaskQuota::new(Some(3));
    let s = ShutdownState::new();
    let r = l.step(&mut q, &s, LoopInput::Submitted);
    assert!(matches!(r, Err(StepError::UnexpectedInput)));
    assert!(matches!(l.phase, LoopPhase::Idle));
    assert_eq!((q.completed, q.in_flight), (0, 0));
}

#[test]
fn stopped_loop_stays_stopped() {
    let mut l = TaskLoop::new(None);
    let mut q = TaskQuota::new(Some(0));
    let s = ShutdownState::new();
    let t = step(&mut l, &mut q, &s, LoopInput::Ready);
    assert!(matches!(t.action, Action::Stop));
    let t = step(&mut l, &mut q, &s, LoopInput::Submitted);
    assert!(matches!(t.action, Action::Stop));
    assert!(t.event.is_none());
    assert!(l.is_stopped());
}
