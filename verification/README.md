# polkadot_kit

Verified logic of three Polkadot components, in Verus.

- `src/workers`: locating the worker binaries of a node. A search asks the host one question at a
  time and is told the answers; the laws say what it comes to on a host that does not change.
- `src/fellowship`: the core fellowship, that is who is tracked, who is paid, and when ranks are
  gained and lost. `model` holds the rules as functions on states, `pallet` the calls.
- `src/queue_mock`: mocks around a message queue, that is processors that record or count, weights
  that a test sets, and what a test asks about queues and pages.
- `src/unix_path`: paths as byte strings.

`app` joins the library to the file system and to FRAME.
