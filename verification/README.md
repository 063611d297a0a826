# method_taskifier

A library for handing work to long-running workers through a task queue.

- `src/` is the verified library:
  - `task_channel`: the state shared by the two ends of a task channel (FIFO
    queue, sender count, one slot per receiver recording whether it has seen
    the latest change, change counter), well formed by a type invariant, with
    every operation specified over `ChannelView` and the channel's laws proved
    (delivery order for `try_pop` and `try_recv`, exactly-once delivery in
    sending order under any interleaving of calls, no lost wake-up for any
    receiver, disconnection, discarding on the last receiver's departure);
    freed receiver slots are reused.
  - `worker_runner`: how many executors a runner may start and when an
    executor restarts its worker.
  - `taskifier`: the planning logic of the `method_taskifier_impl` attribute:
    the argument grammar (`read_arguments` reads a whole list and equals
    `read_all`, for which argument order is proved not to matter), the taking
    apart of the worker `impl` block, the names and log messages of the
    generated items, and the generated code itself (`codegen`: every item as
    a specified sequence of text, string literals and fragments of the user's
    tokens).
  - `prelude`: `ResultInspector` and `OptionInspector`.
  - `errors`: the error values and their messages.
- `app/` holds the runtime around it: the lock-protected channel handles with
  asynchronous wake-ups, the tokio-based worker runner, the error types with
  `std::error::Error`, the `Any` helpers, and for the attribute the reading of
  tokens with `syn` and the turning of generated pieces back into tokens.
- `tests/` exercises the library.
