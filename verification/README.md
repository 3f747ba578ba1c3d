# gateway

The decision core of an AI gateway, verified with Verus, and the process around
it.

A client sends a prompt to one protected endpoint. The gateway checks the request,
picks an operator-configured route, calls the provider within a deadline and an
attempt budget, falls back to other targets where that may help, and keeps a
circuit per target. Everything that decides anything lives in `src/`, takes plain
values and clock readings, and returns plain values; what it returns is stated in
contracts and proved.

## Layout

- `src/common` holds what the features share: time, text, numbers, JSON documents,
  deadlines, admission, operator settings.
- `src/ingress` validates requests, resolves routes and shapes payloads and
  answers.
- `src/executor` is the execution engine. `run.rs` is a request's walk through its
  hops as a state machine whose steps are "call", "wait" and "finish";
  `circuit.rs` holds the target circuits; `budget.rs` the attempt budget, backoff
  and `Retry-After`; `events.rs` what a run records of itself; `openai_response.rs` and `vendors/openai.rs` the provider's
  protocol; `pricing.rs` the cost estimate.
- `src/executor/run_laws.rs` and `src/executor/circuit_laws.rs` state what holds of
  every run and of every registry: bounded calls, kept provider waits, authoritative
  deadlines, exclusive probes, ignored stale completions.
- `src/health` decides liveness and readiness, `src/middleware` credentials and
  correlation identifiers.
- `app/` is the process: HTTP in and out, the clock, the environment, and the loop
  that performs the steps which the engine asks for.
- `tests/` runs the library on concrete values, with a manual clock and scripted
  provider answers.

## Numbers and time

Doubles are held as their bits; the library compares them, and the process does
their arithmetic. Instants count nanoseconds from an arbitrary origin that the
process picks.
