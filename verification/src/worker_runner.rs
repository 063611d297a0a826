//! The decisions of a worker runner: how many executors it may start, when an
//! executor stops waiting for the stop signal, and when it restarts its worker.
use vstd::prelude::*;
use crate::errors::InvalidNumberOfExecutors;

verus! {

/// The value that the runner broadcasts to its executors.
#[derive(Debug, Clone, Copy, PartialEq, Eq, Structural)]
pub enum RunControl {
    /// Executors keep (re)starting their workers.
    Run,
    /// Executors stop their workers and exit.
    Stop,
}

/// What an executor observes on the runner's control channel.
#[derive(Debug, Clone, Copy, PartialEq, Eq, Structural)]
pub enum ControlUpdate {
    /// The control value changed; this is the new value.
    Changed(RunControl),
    /// The runner itself is gone.
    Closed,
}

/// How one run of a worker ended.
#[derive(Debug, Clone, Copy, PartialEq, Eq, Structural)]
pub enum WorkerOutcome {
    /// The worker's future completed on its own.
    Returned,
    /// The executor observed the stop signal (or lost the runner) first.
    Stopped,
    /// The worker's task failed, for instance by panicking.
    Failed,
}

/// Whether an executor restarts its worker after the given outcome.
pub open spec fn restart_spec(outcome: WorkerOutcome) -> bool {
    outcome != WorkerOutcome::Stopped
}

/// Whether an update ends the executor's wait for the stop signal.
pub open spec fn ends_wait_spec(update: ControlUpdate) -> bool {
    match update {
        ControlUpdate::Changed(c) => c == RunControl::Stop,
        ControlUpdate::Closed => true,
    }
}

/// The value that the control channel starts with.
pub fn initial_control() -> (c: RunControl)
    ensures
        c == RunControl::Run,
{
    RunControl::Run
}

/// The value that `stop` broadcasts.
pub fn stop_control() -> (c: RunControl)
    ensures
        c == RunControl::Stop,
{
    RunControl::Stop
}

/// Checks the number of executors asked for: zero is refused.
pub fn check_number_of_executors(number_of_executors: u8) -> (r: Result<u8, InvalidNumberOfExecutors>)
    ensures
        number_of_executors == 0 ==> r == Err::<u8, InvalidNumberOfExecutors>(InvalidNumberOfExecutors(0)),
        number_of_executors != 0 ==> r == Ok::<u8, InvalidNumberOfExecutors>(number_of_executors),
{
    if number_of_executors == 0 {
        Err(InvalidNumberOfExecutors(number_of_executors))
    } else {
        Ok(number_of_executors)
    }
}

/// Whether the executor stops waiting for the stop signal after `update`: it
/// stops when the control value becomes `Stop` or when the runner is gone.
pub fn ends_wait(update: ControlUpdate) -> (done: bool)
    ensures
        done == ends_wait_spec(update),
{
    match update {
        ControlUpdate::Changed(RunControl::Stop) => true,
        ControlUpdate::Changed(RunControl::Run) => false,
        ControlUpdate::Closed => true,
    }
}

/// Whether the executor starts its worker again: after the worker returned or
/// failed it does, after the stop signal it does not.
pub fn should_restart(outcome: WorkerOutcome) -> (restart: bool)
    ensures
        restart == restart_spec(outcome),
{
    match outcome {
        WorkerOutcome::Returned => true,
        WorkerOutcome::Stopped => false,
        WorkerOutcome::Failed => true,
    }
}

} // verus!
