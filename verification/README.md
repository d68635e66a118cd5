# monitor_tool

A `monitor` tool for a conversation with a model: it runs a shell command in the
background and turns what the command prints into batched notices, each of which
is shown to the user, handed to the model and wakes the session.

The library under `src/` is verified with Verus. It makes every decision but one:
which argument texts are accepted is decided by serde, in `app/`.

- `watch`: the life of one monitor as a state machine from events to batches,
- `delivery`: what one batch asks of the session,
- `handler`, `tool`: the call of the tool, its answer and its declaration,
- `ids`, `text`, `protocol`: numbers, texts and the session's data,
- `runs`: what holds of a monitor over any number of events.

`app/` parses the arguments of a call, gives the answer, and then drives the state
machine on tokio. The command starts only after the answer, so the answer comes
before every notice.
