# flotswarm

Webhooks, distributed and run on a fleet of hosts. A signed webhook arrives at the
distributor, which sends a message to the queue of every host; on each host an
agent holds the message against the host's allowlist of actions and runs the
mapped command.

## Layout

- `src/` — the decisions of both, verified with Verus. It does no I/O: where
  outside work stands between two decisions, the first hands out what to do and
  the second goes on with what came of it.
  - `ingress`, `signature`, `stamp`, `request`, `request_laws`: the distributor.
  - `action`, `plan`, `plan_laws`, `fault`: what a message may make an agent run.
  - `agent`, `command`, `timeout`, `delivery`, `delivery_laws`: the agent.
  - `message`: what goes over the wire.
  - `text`, `text_map`: text, and ordered maps keyed by text.
- `app/` — the program around the library: AWS, files, processes, and the JSON and
  TOML forms of the library's types. It is the distributor where it runs as
  `bootstrap`, and the agent under any other name.
- `tests/` — tests of the library.

## What is stated

Each type has a model, the value that it stands for as sequences of characters,
numbers and variants, and contracts speak of models through `deep_view()`. The
functions named `law_…` state what holds across functions: that nothing of an
unsigned request is read or sent, that a value never becomes more than one token
of a command, that a command runs only once all of its repo-state checks are
passed, and the like.

What is believed without proof stands behind small wrappers around `hex`, `hmac`
with `sha2`, `regex`, `uuid`, `time` and the standard library's formatting; each says what it
claims.
