use method_taskifier::worker_runner::{
    check_number_of_executors, ends_wait, initial_control, should_restart, stop_control, ControlUpdate,
    RunControl, WorkerOutcome,
};
use method_taskifier::InvalidNumberOfExecutors;

#[test]
fn zero_executors_are_refused() {
    assert_eq!(check_number_of_executors(0), Err(InvalidNumberOfExecutors(0)));
    assert_eq!(check_number_of_executors(0).unwrap_err().message(), "invalid number of executors: 0");
}

#[test]
fn positive_executor_counts_are_accepted() {
    assert_eq!(check_number_of_executors(1), Ok(1));
    assert_eq!(check_number_of_executors(255), Ok(255));
}

#[test]
fn worker_is_restarted_after_panic_or_return() {
    assert!(should_restart(WorkerOutcome::Failed));
    assert!(should_restart(WorkerOutcome::Returned));
    assert!(!should_restart(WorkerOutcome::Stopped));
}

#[test]
fn only_stop_or_closing_ends_the_wait() {
    assert_eq!(initial_control(), RunControl::Run);
    assert_eq!(stop_control(), RunControl::Stop);
    assert!(!ends_wait(ControlUpdate::Changed(RunControl::Run)));
    assert!(ends_wait(ControlUpdate::Changed(RunControl::Stop)));
    assert!(ends_wait(ControlUpdate::Closed));
}
