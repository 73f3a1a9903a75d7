# duroxide

The deterministic core of a durable-execution framework, written in Rust and verified with
[Verus](https://github.com/verus-lang/verus).

An orchestration schedules activities, timers, events and sub-orchestrations through a context.
What it schedules becomes a list of actions; what comes of them is delivered back into the context,
where futures find it. A turn is therefore a function of what was delivered to it, and replaying
the same deliveries takes the same way. The contracts in `src/` say so function by function, and the
proof functions named `law_…` state what holds across functions.

## Layout

- `src/` is the verified library.
  - `context`, `orchestration`, `mailbox`, `numbering`, `action`, `event`, `ids`, `laws`: the context
    of a turn, what it emits, how results, events and messages reach it, and its key-value state.
  - `future`, `combinators`, `retry`, `workflow`: handles for scheduled work, joins and races,
    activities with automatic retry, and orchestrations as state machines.
  - `client`, `provider`, `error`: the messages a client enqueues, the status it reads off a
    history, how it waits, and how failures are described.
  - `provider_validation`: what a store must do, as scripts, and the machine that runs them.
  - `stress`, `workload`, `suite`, `examples`: stress tests and example orchestrations.
  - `activity`, `trace`, `json`, `text`, `time`, `assoc`, `either`: the rest.
- `app/` is the asynchronous side: the traits of stores and hosts, the client that talks to a store,
  typed inputs and outputs, logging, stored forms, and the loops that run validation scripts and
  stress tests.
- `tests/` runs the library, the validation scripts against a store in memory and against stores that
  are broken in one way each among others.

## What is taken on trust

Ten small functions call `std` or `serde_json` and carry contracts that are believed: reading the
wall clock, changing the case of a text, building and printing a JSON object, and parsing JSON texts.
Each names the function that it calls. Two types of `serde_json` are declared, and nothing is claimed
of them but what those functions state. Everything else in `src/` is proved.
