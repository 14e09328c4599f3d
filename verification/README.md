# syzygy

An application context for Rust programs: a model, shared resources, and a bus on
which effects are sent from anywhere (other threads, async tasks, rayon jobs) and
executed on the context, batch by batch, in the order they arrive.

- `src/` is the library, each function proved against its contract, resting on stated
  contracts for the std, tokio and rayon calls it makes:
  - `syzygy.rs`: the context `Syzygy` and its builder, model access, resources,
    and the handling of effects (each batch's effects run first to last, each once);
  - `resource.rs`: the keyed resource store;
  - `effect_bus.rs`: the bus of effect batches and their completion signals;
  - `deferred.rs`: the function a guard holds, handed out at most once;
  - `spawn.rs`: runtime handles (tokio, rayon) and spawning errors;
  - `channel.rs`: the std and tokio channel calls the bus is built on.
- `app/` holds what stays outside the proofs: spawning threads, tasks and rayon jobs,
  the guard that runs its deferred function on drop,
  resources looked up by Rust type, error types with `thiserror` derives, and the
  `ResourceAccess` derive expansion.
- `tests/` exercises the library.
