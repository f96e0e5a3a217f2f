//! The owner of the worker process: start, readiness wait, stop, the
//! single-flight guard of restart and stop requests, and the exit state.
use vstd::prelude::*;
use crate::launch::{LaunchError, LaunchPlan};

verus! {

/// Every way a supervisor operation can fail.
#[derive(Debug)]
pub enum SupervisorError {
    /// No launch plan could be resolved.
    Launch(LaunchError),
    /// Automatic start of the worker is switched off.
    AutoStartDisabled,
    /// A working, root or log directory could not be created.
    DirectoryCreation { role: DirectoryRole, path: String, reason: String },
    /// The log file could not be opened for appending.
    LogFileUnavailable { path: String, reason: String },
    /// The operating system refused to create the process.
    Spawn { command: Vec<String>, reason: String },
    /// The worker exited before its endpoint became reachable.
    WorkerExitedPrematurely(String),
    /// No worker process is held.
    WorkerNotRunning,
    /// The worker's status could not be polled.
    StatusPollFailed(String),
    /// The worker kept running but its endpoint stayed unreachable; the
    /// milliseconds waited.
    ReadinessTimeout(u64),
    /// Another restart or stop is in flight.
    ActionInProgress,
    /// The supervisor's lock could not be taken.
    LockUnavailable,
}

/// Which of the worker's directories is meant.
#[derive(PartialEq, Eq, Structural, Clone, Copy, Debug)]
pub enum DirectoryRole {
    WorkingDir,
    RootDir,
    LogDir,
}

/// What polling a held worker process showed.
#[derive(Debug)]
pub enum ProcessPoll {
    Running,
    /// It exited, with this status.
    Exited(String),
    /// The poll itself failed, for this reason.
    Failed(String),
}

/// A spawned worker process, as the platform provides it.
pub trait WorkerHandle {
    /// Checks, without blocking, whether the process has exited.
    fn poll_exit(&mut self) -> ProcessPoll;

    /// Kills the process and waits until it is reaped. Failures are not
    /// reported: the process is being discarded either way.
    fn terminate(&mut self);
}

/// Creates worker processes from launch plans.
pub trait WorkerSpawner<H> {
    fn spawn(&mut self, plan: &LaunchPlan) -> Result<H, SupervisorError>;
}

/// The outcome of one round of the readiness wait.
#[derive(Debug)]
pub enum ReadinessStep {
    /// The endpoint is reachable.
    Ready,
    /// Still starting: sleep and probe again.
    Retry,
    /// The wait is over without success.
    Failed(SupervisorError),
}

/// One round of the readiness wait, given whether the endpoint answered, what
/// polling the process showed (`None`: no process is held), the milliseconds
/// waited so far and the ceiling.
pub open spec fn readiness_outcome(
    reachable: bool,
    poll: Option<ProcessPoll>,
    elapsed_ms: u64,
    limit_ms: u64,
) -> ReadinessStep {
    if reachable {
        ReadinessStep::Ready
    } else {
        match poll {
            None => ReadinessStep::Failed(SupervisorError::WorkerNotRunning),
            Some(ProcessPoll::Exited(status)) => ReadinessStep::Failed(
                SupervisorError::WorkerExitedPrematurely(status),
            ),
            Some(ProcessPoll::Failed(reason)) => ReadinessStep::Failed(
                SupervisorError::StatusPollFailed(reason),
            ),
            Some(ProcessPoll::Running) => if elapsed_ms >= limit_ms {
                ReadinessStep::Failed(SupervisorError::ReadinessTimeout(elapsed_ms))
            } else {
                ReadinessStep::Retry
            },
        }
    }
}

/// Decides one round of the readiness wait.
pub fn decide_readiness(
    reachable: bool,
    poll: Option<ProcessPoll>,
    elapsed_ms: u64,
    limit_ms: u64,
) -> (r: ReadinessStep)
    ensures
        r == readiness_outcome(reachable, poll, elapsed_ms, limit_ms),
{
    if reachable {
        return ReadinessStep::Ready;
    }
    match poll {
        None => ReadinessStep::Failed(SupervisorError::WorkerNotRunning),
        Some(ProcessPoll::Exited(status)) => ReadinessStep::Failed(
            SupervisorError::WorkerExitedPrematurely(status),
        ),
        Some(ProcessPoll::Failed(reason)) => ReadinessStep::Failed(
            SupervisorError::StatusPollFailed(reason),
        ),
        Some(ProcessPoll::Running) => if elapsed_ms >= limit_ms {
            ReadinessStep::Failed(SupervisorError::ReadinessTimeout(elapsed_ms))
        } else {
            ReadinessStep::Retry
        },
    }
}

/// Shutdown intent, one-directional: running, then quit requested, then
/// exiting.
#[derive(PartialEq, Eq, Structural, Clone, Copy, Debug)]
pub enum ExitState {
    Running,
    QuitRequested,
    Exiting,
}

pub open spec fn exit_rank(s: ExitState) -> nat {
    match s {
        ExitState::Running => 0,
        ExitState::QuitRequested => 1,
        ExitState::Exiting => 2,
    }
}

/// What a request to close the main window turns into.
#[derive(PartialEq, Eq, Structural, Clone, Copy, Debug)]
pub enum CloseDecision {
    /// The process is quitting: let the window close.
    AllowClose,
    /// Hide the window instead; the worker keeps running.
    HideWindow,
}

pub open spec fn close_decision_for(s: ExitState) -> CloseDecision {
    if s == ExitState::Running {
        CloseDecision::HideWindow
    } else {
        CloseDecision::AllowClose
    }
}

/// Owns at most one worker process, the flag of the restart or stop in
/// flight, and the exit state.
pub struct Supervisor<H> {
    child: Option<H>,
    backend_url: String,
    restarting: bool,
    exit_state: ExitState,
}

impl<H: WorkerHandle> Supervisor<H> {
    pub closed spec fn child(&self) -> Option<H> {
        self.child
    }

    pub closed spec fn url(&self) -> Seq<char> {
        self.backend_url@
    }

    pub closed spec fn restarting(&self) -> bool {
        self.restarting
    }

    pub closed spec fn exit_state(&self) -> ExitState {
        self.exit_state
    }

    /// A supervisor that holds no process, for the endpoint `backend_url`.
    pub fn new(backend_url: String) -> (r: Self)
        ensures
            r.child().is_none(),
            r.url() == backend_url@,
            !r.restarting(),
            r.exit_state() == ExitState::Running,
    {
        Supervisor { child: None, backend_url, restarting: false, exit_state: ExitState::Running }
    }

    /// The endpoint that readiness probes target.
    pub fn backend_url(&self) -> (r: &str)
        ensures
            r@ == self.url(),
    {
        self.backend_url.as_str()
    }

    /// Whether a worker process is held.
    pub fn is_process_held(&self) -> (r: bool)
        ensures
            r == self.child().is_some(),
    {
        self.child.is_some()
    }

    /// Whether a restart or stop is in flight.
    pub fn is_action_in_progress(&self) -> (r: bool)
        ensures
            r == self.restarting(),
    {
        self.restarting
    }

    /// Starts the worker of `plan` unless one is already held. With a process
    /// held it succeeds without touching the spawner, so a second start never
    /// spawns twice.
    pub fn start<S: WorkerSpawner<H>>(&mut self, spawner: &mut S, plan: &LaunchPlan) -> (r: Result<
        (),
        SupervisorError,
    >)
        ensures
            old(self).child().is_some() ==> r is Ok && *final(self) == *old(self) && *final(spawner)
                == *old(spawner),
            old(self).child().is_none() ==> (r is Ok <==> final(self).child().is_some()),
            final(self).url() == old(self).url(),
            final(self).restarting() == old(self).restarting(),
            final(self).exit_state() == old(self).exit_state(),
    {
        if self.child.is_some() {
            return Ok(());
        }
        match spawner.spawn(plan) {
            Ok(h) => {
                self.child = Some(h);
                Ok(())
            },
            Err(e) => Err(e),
        }
    }

    /// Takes the held process, if any, out of the supervisor. Afterwards no
    /// process is held; the caller terminates what it receives.
    pub fn take_process(&mut self) -> (r: Option<H>)
        ensures
            r == old(self).child(),
            final(self).child().is_none(),
            final(self).url() == old(self).url(),
            final(self).restarting() == old(self).restarting(),
            final(self).exit_state() == old(self).exit_state(),
    {
        self.child.take()
    }

    /// One round of the readiness wait, given whether the endpoint answered
    /// within the probe timeout. When it did not, the held process is polled;
    /// a process found exited is released.
    pub fn readiness_step(&mut self, reachable: bool, elapsed_ms: u64, limit_ms: u64) -> (r:
        ReadinessStep)
        ensures
            reachable ==> r == ReadinessStep::Ready && *final(self) == *old(self),
            !reachable && old(self).child().is_none() ==> r == ReadinessStep::Failed(
                SupervisorError::WorkerNotRunning,
            ) && *final(self) == *old(self),
            !reachable && old(self).child().is_some() ==> exists|poll: ProcessPoll|
                r == readiness_outcome(false, Some(poll), elapsed_ms, limit_ms) && (
                #[trigger] poll_exited(poll) <==> final(self).child().is_none()),
            r matches ReadinessStep::Failed(SupervisorError::WorkerExitedPrematurely(_))
                ==> final(self).child().is_none(),
            final(self).url() == old(self).url(),
            final(self).restarting() == old(self).restarting(),
            final(self).exit_state() == old(self).exit_state(),
    {
        if reachable {
            return ReadinessStep::Ready;
        }
        let taken = self.child.take();
        match taken {
            None => ReadinessStep::Failed(SupervisorError::WorkerNotRunning),
            Some(mut process) => {
                let poll = process.poll_exit();
                let exited = match &poll {
                    ProcessPoll::Exited(_) => true,
                    _ => false,
                };
                if !exited {
                    self.child = Some(process);
                }
                assert(exited == poll_exited(poll));
                decide_readiness(false, Some(poll), elapsed_ms, limit_ms)
            },
        }
    }

    /// Claims the single-flight flag for a restart or stop. Fails with
    /// `ActionInProgress`, changing nothing, while another one holds it.
    pub fn try_begin_action(&mut self) -> (r: Result<(), SupervisorError>)
        ensures
            old(self).restarting() ==> r == Err::<(), SupervisorError>(
                SupervisorError::ActionInProgress,
            ) && *final(self) == *old(self),
            !old(self).restarting() ==> r is Ok && final(self).restarting() && final(self).child()
                == old(self).child() && final(self).url() == old(self).url() && final(self).exit_state() == old(self).exit_state(),
    {
        if self.restarting {
            return Err(SupervisorError::ActionInProgress);
        }
        self.restarting = true;
        Ok(())
    }

    /// Releases the single-flight flag.
    pub fn end_action(&mut self)
        ensures
            !final(self).restarting(),
            final(self).child() == old(self).child(),
            final(self).url() == old(self).url(),
            final(self).exit_state() == old(self).exit_state(),
    {
        self.restarting = false;
    }

    /// Begins a restart: claims the single-flight flag and takes the held
    /// process, which the caller terminates before starting anew. While another
    /// restart or stop is in flight it returns `ActionInProgress` and hands out
    /// no process. The caller releases the flag with `end_action`.
    pub fn begin_restart(&mut self) -> (r: Result<Option<H>, SupervisorError>)
        ensures
            old(self).restarting() ==> r == Err::<Option<H>, SupervisorError>(
                SupervisorError::ActionInProgress,
            ) && *final(self) == *old(self),
            !old(self).restarting() ==> r == Ok::<Option<H>, SupervisorError>(old(self).child())
                && final(self).restarting() && final(self).child().is_none() && final(self).url()
                == old(self).url() && final(self).exit_state() == old(self).exit_state(),
    {
        match self.try_begin_action() {
            Err(e) => Err(e),
            Ok(()) => Ok(self.take_process()),
        }
    }

    /// A stop requested from outside: refused with `ActionInProgress`, changing
    /// nothing and handing out no process, while a restart or stop is in
    /// flight; otherwise the held process is taken for the caller to terminate,
    /// and the flag is free again afterwards.
    pub fn request_stop(&mut self) -> (r: Result<Option<H>, SupervisorError>)
        ensures
            old(self).restarting() ==> r == Err::<Option<H>, SupervisorError>(
                SupervisorError::ActionInProgress,
            ) && *final(self) == *old(self),
            !old(self).restarting() ==> r == Ok::<Option<H>, SupervisorError>(old(self).child())
                && !final(self).restarting() && final(self).child().is_none() && final(self).url()
                == old(self).url() && final(self).exit_state() == old(self).exit_state(),
    {
        match self.try_begin_action() {
            Err(e) => Err(e),
            Ok(()) => {
                let taken = self.take_process();
                self.end_action();
                Ok(taken)
            },
        }
    }

    /// Whether the process is quitting, so that a window close is real.
    pub fn is_quitting(&self) -> (r: bool)
        ensures
            r == (self.exit_state() != ExitState::Running),
    {
        self.exit_state != ExitState::Running
    }

    /// Records that the user asked to quit; a later state is kept.
    pub fn request_quit(&mut self)
        ensures
            final(self).exit_state() == (if old(self).exit_state() == ExitState::Running {
                ExitState::QuitRequested
            } else {
                old(self).exit_state()
            }),
            final(self).child() == old(self).child(),
            exit_rank(final(self).exit_state()) >= exit_rank(old(self).exit_state()),
            final(self).url() == old(self).url(),
            final(self).restarting() == old(self).restarting(),
    {
        if self.exit_state == ExitState::Running {
            self.exit_state = ExitState::QuitRequested;
        }
    }

    /// Decides what a request to close the main window does.
    pub fn close_decision(&self) -> (r: CloseDecision)
        ensures
            r == close_decision_for(self.exit_state()),
    {
        if self.exit_state == ExitState::Running {
            CloseDecision::HideWindow
        } else {
            CloseDecision::AllowClose
        }
    }

    /// Moves to `Exiting` and takes the held process for the caller to
    /// terminate, the first time only: `Some` with what was held on that call,
    /// `None` on every later one, which changes nothing. So the worker is
    /// handed to termination exactly once.
    pub fn begin_exit(&mut self) -> (r: Option<Option<H>>)
        ensures
            old(self).exit_state() != ExitState::Exiting ==> r == Some(old(self).child())
                && final(self).child().is_none(),
            old(self).exit_state() == ExitState::Exiting ==> r.is_none() && *final(self) == *old(self),
            final(self).exit_state() == ExitState::Exiting,
            final(self).url() == old(self).url(),
            final(self).restarting() == old(self).restarting(),
    {
        if self.exit_state == ExitState::Exiting {
            return None;
        }
        self.exit_state = ExitState::Exiting;
        Some(self.take_process())
    }
}

/// Whether a poll found the process exited.
pub open spec fn poll_exited(p: ProcessPoll) -> bool {
    p is Exited
}

} // verus!
