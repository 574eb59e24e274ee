# govno

The verified core of a small WebSocket pub/sub system: worker microservices
produce messages on four topics, an orchestrator registers the workers,
numbers and counts their messages and routes them to authenticated
consumers, and a browser client shows the stream.

- `src/` — the library, verified with Verus:
  - `proto` — the wire types shared by workers, orchestrator and consumers;
  - `worker` — a worker's decisions: registration, emission, reconnect backoff;
  - `orchestrator` — producer registry, authentication gate, consumer
    commands, the delivery rule, metrics and their Prometheus exposition;
  - `server` — the earlier single-process server;
  - `client` — the browser client's state machine and the page updates it
    decides on;
  - `laws` — properties that span several operations;
  - `text`, `wrapping`, `random` — integer rendering, wrapping counters, and
    the random numbers drawn from `rand`.
- `app/` — the programs around it: the orchestrator, the server and the
  workers (axum, tokio, tokio-tungstenite), and the browser bindings
  (wasm-bindgen, web-sys). Run `govno orchestrator`, `govno server` or
  `govno worker-liquid|worker-solid|worker-gas|worker-critical`.
- `tests/` — tests of the library on concrete values.

## Collections

vstd specifies `HashMap` and `HashSet` only for key types that it knows to
obey its key model (the primitive integer types, `bool`, and boxes of
them); proving that of `String` would take an `assume`, which this crate
does not make. So the collections keyed by text are held in forms whose
contents Verus sees:

- the orchestrator's registry of producers is a `Vec<ServiceInfo>` whose
  type invariant says that no assigned id occurs twice; contracts see it as
  a `Map` from assigned id to entry (`Orchestrator::registry`);
- the client's subscriptions are a `Vec<String>`, seen as a `Set` of topic
  names (`Subscriptions`);
- the client's rate trackers, whose keys are five fixed names, are five
  fields, seen as a `Map` from name to tracker (`TopicRates`).

The registry lists its entries in the order they were registered.
