//! The choices that shape the generated code: which items carry serde's
//! derives, which executor methods are `async`, where calls are awaited, the
//! type of a method without a declared return type, and what the `debug` flag
//! does.
use vstd::prelude::*;

verus! {

/// The generated items that serde's derives may be put on.
#[derive(Debug, Clone, Copy, PartialEq, Eq, Structural)]
pub enum GeneratedItem {
    ParamsStruct,
    ResultStruct,
    TaskEnum,
    TaskResultEnum,
    /// Holds a one-shot result sender, which cannot be serialised.
    ChanneledTaskEnum,
}

/// Whether `item` carries serde's derives: all task types do when `use_serde`
/// is given, except the channeled task.
pub fn derives_serde(use_serde: bool, item: GeneratedItem) -> (r: bool)
    ensures
        r == (use_serde && item != GeneratedItem::ChanneledTaskEnum),
{
    match item {
        GeneratedItem::ChanneledTaskEnum => false,
        _ => use_serde,
    }
}

/// The methods of the generated executor.
#[derive(Debug, Clone, Copy, PartialEq, Eq, Structural)]
pub enum ExecutorMethod {
    ExecuteTask,
    ExecuteChanneledTask,
    TryExecuteChanneledTaskFromQueue,
    ExecuteChanneledTaskFromQueue,
    ExecuteRemainingChanneledTasksFromQueue,
    ExecuteChanneledTasksFromQueueUntilClientsDropped,
}

/// Whether an executor method is `async`: the two that wait on the queue
/// always are; the others are exactly when some worker method is.
pub open spec fn executor_method_is_async_spec(method: ExecutorMethod, has_async_worker_method: bool) -> bool {
    match method {
        ExecutorMethod::ExecuteChanneledTaskFromQueue => true,
        ExecutorMethod::ExecuteChanneledTasksFromQueueUntilClientsDropped => true,
        _ => has_async_worker_method,
    }
}

/// Decides whether an executor method is `async`.
pub fn executor_method_is_async(method: ExecutorMethod, has_async_worker_method: bool) -> (r: bool)
    ensures
        r == executor_method_is_async_spec(method, has_async_worker_method),
{
    match method {
        ExecutorMethod::ExecuteChanneledTaskFromQueue => true,
        ExecutorMethod::ExecuteChanneledTasksFromQueueUntilClientsDropped => true,
        _ => has_async_worker_method,
    }
}

/// Whether the executor awaits its own call of `execute_channeled_task`:
/// exactly when that method is `async`.
pub fn executor_awaits_channeled_execution(has_async_worker_method: bool) -> (r: bool)
    ensures
        r == executor_method_is_async_spec(ExecutorMethod::ExecuteChanneledTask, has_async_worker_method),
{
    has_async_worker_method
}

/// Whether the generated executor awaits its call of a worker method: exactly
/// when that method is `async`.
pub fn awaits_worker_call(worker_method_is_async: bool) -> (r: bool)
    ensures
        r == worker_method_is_async,
{
    worker_method_is_async
}

/// The type that a worker method's result struct holds.
#[derive(Debug, Clone, Copy, PartialEq, Eq, Structural)]
pub enum ResultType {
    /// The method declares no return type: the unit type.
    Unit,
    /// The method's declared return type.
    Declared,
}

/// The result type of a worker method.
pub fn result_type(has_declared_return_type: bool) -> (r: ResultType)
    ensures
        r == (if has_declared_return_type { ResultType::Declared } else { ResultType::Unit }),
{
    if has_declared_return_type {
        ResultType::Declared
    } else {
        ResultType::Unit
    }
}

/// What becomes of the generated code.
#[derive(Debug, Clone, Copy, PartialEq, Eq, Structural)]
pub enum Expansion {
    /// It replaces the attribute's input.
    Emit,
    /// Compilation stops with the generated code as the message, for reading.
    PanicWithCode,
}

/// What becomes of the generated code under the `debug` flag.
pub fn expansion(debug_mode: bool) -> (r: Expansion)
    ensures
        r == (if debug_mode { Expansion::PanicWithCode } else { Expansion::Emit }),
{
    if debug_mode {
        Expansion::PanicWithCode
    } else {
        Expansion::Emit
    }
}

} // verus!
