//! Supervision decisions for the three pipelines: state of each, what a
//! task's end means, and when a shutdown is complete or late.
use vstd::prelude::*;
use crate::errors::TaskError;

verus! {

/// Time allowed for all pipelines to stop after a shutdown signal, in ms.
pub const SHUTDOWN_TIMEOUT_MS: u64 = 1000;
/// Interval between shutdown checks, in ms.
pub const SHUTDOWN_CHECK_INTERVAL_MS: u64 = 100;

/// Which pipeline a task runs.
#[derive(Clone, Copy, Debug, PartialEq, Eq, Structural)]
pub enum TaskKind {
    Polling,
    Writer,
    Analysis,
}

/// The active flag of each pipeline.
#[derive(Clone, Copy, Debug, PartialEq, Eq, Structural)]
pub struct TaskState {
    pub polling_active: bool,
    pub writer_active: bool,
    pub analysis_active: bool,
}

impl TaskState {
    pub open spec fn active(self, kind: TaskKind) -> bool {
        match kind {
            TaskKind::Polling => self.polling_active,
            TaskKind::Writer => self.writer_active,
            TaskKind::Analysis => self.analysis_active,
        }
    }

    pub fn new() -> (r: TaskState)
        ensures
            r == (TaskState { polling_active: false, writer_active: false, analysis_active: false }),
    {
        TaskState { polling_active: false, writer_active: false, analysis_active: false }
    }

    pub fn is_all_inactive(&self) -> (r: bool)
        ensures
            r == (!self.polling_active && !self.writer_active && !self.analysis_active),
    {
        !self.polling_active && !self.writer_active && !self.analysis_active
    }

    /// Sets one pipeline's flag, leaving the others.
    pub fn update_task_state(&mut self, kind: TaskKind, active: bool)
        ensures
            final(self).active(kind) == active,
            forall|k: TaskKind| k != kind ==> final(self).active(k) == old(self).active(k),
    {
        match kind {
            TaskKind::Polling => self.polling_active = active,
            TaskKind::Writer => self.writer_active = active,
            TaskKind::Analysis => self.analysis_active = active,
        }
    }

    /// Marks every pipeline active or inactive.
    pub fn set_all(&mut self, active: bool)
        ensures
            *final(self) == (TaskState { polling_active: active, writer_active: active, analysis_active: active }),
    {
        self.polling_active = active;
        self.writer_active = active;
        self.analysis_active = active;
    }
}

/// How a task ended: normally, with an error message, or by a panic.
#[derive(Debug, PartialEq, Eq)]
pub enum TaskOutcome {
    Completed,
    Failed(String),
    Panicked(String),
}

/// Records the end of a task: its pipeline becomes inactive, and a failure
/// or panic becomes the matching error.
pub fn handle_task_result(state: &mut TaskState, kind: TaskKind, outcome: TaskOutcome) -> (r: Result<(), TaskError>)
    ensures
        !final(state).active(kind),
        forall|k: TaskKind| k != kind ==> final(state).active(k) == old(state).active(k),
        outcome is Completed ==> r is Ok,
        outcome is Failed ==> r == Err::<(), TaskError>(TaskError::ExecutionError(outcome->Failed_0)),
        outcome is Panicked ==> r == Err::<(), TaskError>(TaskError::PanicError(outcome->Panicked_0)),
{
    state.update_task_state(kind, false);
    match outcome {
        TaskOutcome::Completed => Ok(()),
        TaskOutcome::Failed(e) => Err(TaskError::ExecutionError(e)),
        TaskOutcome::Panicked(e) => Err(TaskError::PanicError(e)),
    }
}

/// The monitor's verdict when a task ends on its own: always an execution
/// error, carrying the task's own message when it failed or panicked and
/// `ended` when it completed.
pub fn task_ended_error(state: &mut TaskState, kind: TaskKind, outcome: TaskOutcome, ended: String) -> (r: TaskError)
    ensures
        !final(state).active(kind),
        forall|k: TaskKind| k != kind ==> final(state).active(k) == old(state).active(k),
        outcome is Completed ==> r == TaskError::TaskExecutionError(ended),
        outcome is Failed ==> r == TaskError::TaskExecutionError(outcome->Failed_0),
        outcome is Panicked ==> r == TaskError::TaskExecutionError(outcome->Panicked_0),
{
    match handle_task_result(state, kind, outcome) {
        Ok(()) => TaskError::TaskExecutionError(ended),
        Err(TaskError::ExecutionError(e)) => TaskError::TaskExecutionError(e),
        Err(TaskError::PanicError(e)) => TaskError::TaskExecutionError(e),
        Err(e) => e,
    }
}

/// One check of a pending shutdown.
#[derive(Clone, Copy, Debug, PartialEq, Eq, Structural)]
pub enum ShutdownStep {
    /// Every pipeline has stopped.
    Done,
    /// Check again after the check interval.
    Wait,
    /// The timeout passed with a pipeline still active.
    TimedOut,
}

/// Decides a shutdown check made `elapsed_ms` after the signal.
pub fn shutdown_step(state: &TaskState, elapsed_ms: u64, timeout_ms: u64) -> (r: ShutdownStep)
    ensures
        elapsed_ms >= timeout_ms ==> r == ShutdownStep::TimedOut,
        elapsed_ms < timeout_ms && !state.polling_active && !state.writer_active && !state.analysis_active ==> r
            == ShutdownStep::Done,
        elapsed_ms < timeout_ms && (state.polling_active || state.writer_active || state.analysis_active) ==> r
            == ShutdownStep::Wait,
{
    if elapsed_ms >= timeout_ms {
        ShutdownStep::TimedOut
    } else if state.is_all_inactive() {
        ShutdownStep::Done
    } else {
        ShutdownStep::Wait
    }
}

} // verus!
