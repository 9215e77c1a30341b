# agentgateway: configuration state

A verified library for the state of a gateway's configuration: the load status channel, the local
config client, the search for the gateway's own workload, and the startup that ties them together.

- `src/` is the library, verified with Verus. It decides; it does no I/O. The client, the watch and
  the startup are state machines: each takes what happened and gives what to do next.
- `app/` runs those decisions on tokio, and serializes the statuses.
- `tests/` exercises the library on concrete values.

What is trusted is marked `external_body` in `src/`: the SHA-256 digest, the hexadecimal text, the
YAML parse and the comparison of its values, the clock, the watch channel, and the lock around the
load status that clones of a local client share. What the library does with them is proved. Of the
watch channel it is stated that its watchers see the first snapshot and what its publishers left
there, and nothing else, and the same of the lock; not which of these a given query sees.
