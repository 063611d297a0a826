//! Verified core of a task-distribution library: a multi-producer,
//! multi-consumer task queue with disconnection tracking, the restart policy
//! of long-running workers, and the planning logic of the code generator that
//! turns worker methods into tasks.

pub mod errors;
pub mod prelude;
pub mod task_channel;
pub mod taskifier;
pub mod worker_runner;

pub use errors::{AllClientsDroppedError, AllWorkersDroppedError, InvalidNumberOfExecutors};
