use std::cell::Cell;
use std::rc::Rc;

use astrbot_desktop::launch::LaunchPlan;
use astrbot_desktop::supervisor::{
    decide_readiness, CloseDecision, ProcessPoll, ReadinessStep, Supervisor, SupervisorError,
    WorkerHandle, WorkerSpawner,
};

/// A process whose polls follow a script, counting its terminations.
struct FakeProcess {
    polls: Vec<ProcessPoll>,
    terminated: Rc<Cell<u32>>,
}

impl WorkerHandle for FakeProcess {
    fn poll_exit(&mut self) -> ProcessPoll {
        if self.polls.is_empty() {
            ProcessPoll::Running
        } else {
            self.polls.remove(0)
        }
    }

    fn terminate(&mut self) {
        self.terminated.set(self.terminated.get() + 1);
    }
}

struct FakeSpawner {
    spawned: u32,
    fail: bool,
    polls: Vec<ProcessPoll>,
    terminated: Rc<Cell<u32>>,
}

impl FakeSpawner {
    fn new() -> Self {
        FakeSpawner { spawned: 0, fail: false, polls: Vec::new(), terminated: Rc::new(Cell::new(0)) }
    }
}

impl WorkerSpawner<FakeProcess> for FakeSpawner {
    fn spawn(&mut self, plan: &LaunchPlan) -> Result<FakeProcess, SupervisorError> {
        if self.fail {
            return Err(SupervisorError::Spawn {
                command: vec![plan.cmd.clone()],
                reason: "refused".to_string(),
            });
        }
        self.spawned += 1;
        let polls = std::mem::take(&mut self.polls);
        Ok(FakeProcess { polls, terminated: self.terminated.clone() })
    }
}

fn plan() -> LaunchPlan {
    LaunchPlan {
        cmd: "uv".to_string(),
        args: vec!["run".to_string(), "main.py".to_string()],
        cwd: "/srv/astrbot".to_string(),
        root_dir: None,
        webui_dir: None,
        packaged_mode: false,
    }
}

fn terminate(taken: Option<FakeProcess>) {
    if let Some(mut process) = taken {
        process.terminate();
    }
}

fn supervisor() -> Supervisor<FakeProcess> {
    Supervisor::new("http://127.0.0.1:6185/".to_string())
}

#[test]
fn start_twice_spawns_once() {
    let mut sup = supervisor();
    let mut spawner = FakeSpawner::new();
    assert!(sup.start(&mut spawner, &plan()).is_ok());
    assert!(sup.is_process_held());
    assert!(sup.start(&mut spawner, &plan()).is_ok());
    assert_eq!(spawner.spawned, 1);
    assert!(sup.is_process_held());
}

#[test]
fn start_reports_spawn_failure_and_holds_nothing() {
    let mut sup = supervisor();
    let mut spawner = FakeSpawner::new();
    spawner.fail = true;
    let result = sup.start(&mut spawner, &plan());
    assert!(matches!(result, Err(SupervisorError::Spawn { .. })));
    assert!(!sup.is_process_held());
}

#[test]
fn stop_releases_and_terminates_the_process() {
    let mut sup = supervisor();
    let mut spawner = FakeSpawner::new();
    sup.start(&mut spawner, &plan()).unwrap();
    let taken = sup.take_process();
    assert!(taken.is_some());
    assert!(!sup.is_process_held());
    terminate(taken);
    assert_eq!(spawner.terminated.get(), 1);
}

#[test]
fn stop_without_process_is_a_no_op() {
    let mut sup = supervisor();
    assert!(sup.take_process().is_none());
    assert!(!sup.is_process_held());
}

#[test]
fn second_restart_or_stop_is_refused_while_one_is_in_flight() {
    let mut sup = supervisor();
    let mut spawner = FakeSpawner::new();
    sup.start(&mut spawner, &plan()).unwrap();
    assert!(sup.try_begin_action().is_ok());
    assert!(sup.is_action_in_progress());
    assert!(matches!(sup.begin_restart(), Err(SupervisorError::ActionInProgress)));
    assert!(matches!(sup.request_stop(), Err(SupervisorError::ActionInProgress)));
    assert!(sup.is_process_held());
    assert_eq!(spawner.terminated.get(), 0);
    sup.end_action();
    let taken = sup.request_stop().ok().unwrap();
    assert!(taken.is_some());
    terminate(taken);
    assert_eq!(spawner.terminated.get(), 1);
    assert!(!sup.is_process_held());
    assert!(!sup.is_action_in_progress());
}

#[test]
fn restart_stops_then_starts_again() {
    let mut sup = supervisor();
    let mut spawner = FakeSpawner::new();
    sup.start(&mut spawner, &plan()).unwrap();
    let taken = sup.begin_restart().ok().unwrap();
    assert!(taken.is_some());
    terminate(taken);
    assert!(!sup.is_process_held());
    assert!(sup.start(&mut spawner, &plan()).is_ok());
    sup.end_action();
    assert_eq!(spawner.spawned, 2);
    assert_eq!(spawner.terminated.get(), 1);
    assert!(!sup.is_action_in_progress());
}

#[test]
fn worker_exit_during_wait_fails_and_clears_the_handle() {
    let mut sup = supervisor();
    let mut spawner = FakeSpawner::new();
    spawner.polls = vec![ProcessPoll::Running, ProcessPoll::Exited("exit status: 1".to_string())];
    sup.start(&mut spawner, &plan()).unwrap();
    assert!(matches!(sup.readiness_step(false, 0, 20000), ReadinessStep::Retry));
    assert!(sup.is_process_held());
    let step = sup.readiness_step(false, 600, 20000);
    match step {
        ReadinessStep::Failed(SupervisorError::WorkerExitedPrematurely(status)) => {
            assert_eq!(status, "exit status: 1")
        }
        _ => panic!("expected a premature exit"),
    }
    assert!(!sup.is_process_held());
}

#[test]
fn readiness_wait_outcomes() {
    let mut sup = supervisor();
    assert!(matches!(sup.readiness_step(true, 0, 20000), ReadinessStep::Ready));
    assert!(matches!(
        sup.readiness_step(false, 0, 20000),
        ReadinessStep::Failed(SupervisorError::WorkerNotRunning)
    ));
    assert!(matches!(
        decide_readiness(false, Some(ProcessPoll::Running), 20000, 20000),
        ReadinessStep::Failed(SupervisorError::ReadinessTimeout(20000))
    ));
    assert!(matches!(
        decide_readiness(false, Some(ProcessPoll::Running), 19999, 20000),
        ReadinessStep::Retry
    ));
    assert!(matches!(
        decide_readiness(false, Some(ProcessPoll::Running), 300001, 300000),
        ReadinessStep::Failed(SupervisorError::ReadinessTimeout(300001))
    ));
    assert!(matches!(
        decide_readiness(false, Some(ProcessPoll::Failed("denied".to_string())), 0, 20000),
        ReadinessStep::Failed(SupervisorError::StatusPollFailed(_))
    ));
}

#[test]
fn exit_state_moves_forward_and_stops_once() {
    let mut sup = supervisor();
    let mut spawner = FakeSpawner::new();
    sup.start(&mut spawner, &plan()).unwrap();
    assert_eq!(sup.close_decision(), CloseDecision::HideWindow);
    assert!(!sup.is_quitting());
    sup.request_quit();
    assert!(sup.is_quitting());
    assert_eq!(sup.close_decision(), CloseDecision::AllowClose);
    let first = sup.begin_exit();
    assert!(matches!(first, Some(Some(_))));
    terminate(first.unwrap());
    assert!(sup.begin_exit().is_none());
    sup.request_quit();
    assert!(sup.is_quitting());
    assert_eq!(spawner.terminated.get(), 1);
    assert!(!sup.is_process_held());
}

#[test]
fn backend_url_is_kept() {
    let sup = supervisor();
    assert_eq!(sup.backend_url(), "http://127.0.0.1:6185/");
}
