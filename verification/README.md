# crately

A service that downloads Rust crates from crates.io, extracts their
documentation, splits it into token-sized chunks, asks an embedding service
for vectors, and keeps crates, chunks and embeddings in a store; plus a
command line with `serve`, `init`, `warm`, `batch`, `cache` and `doctor`.

The library in `src/` is written in Verus: each function states what it
does in `requires`/`ensures`, and Verus proves it.

- `cli`, `cli_grammar`: the command line, parsed into a `Cli` value.
- `crate_specifier`: crate names and semantic versions (`name@version`).
- `precedence`: semantic-version precedence (which version is the latest)
  and the component order of relative paths.
- `colors`, `text`: terminal colours and the string helpers the rest uses.
- `actors`: the decisions of each part of the service, as state machines
  that take an event and return the next state and the messages to send:
  configuration, coordination of the pipeline with timeouts and retries,
  download addresses and error kinds, documentation extraction, chunking,
  embedding requests and checks, the HTTP server, the keyboard, the console,
  and the store (`crate_store`) with its records, chunks, embeddings and code
  samples, and the choice of embeddings that a similarity search weighs.
  The store is held in memory: each run of `serve` starts with an
  empty store, and what it holds is gone when the program ends.
- `commands`: the reports of the one-shot commands.

`app/` is the program around the library: the event loop that performs what
the state machines decide (network, files, terminal, timers), the HTTP
handlers, reading and writing the configuration file, and the scoring of
a similarity search (cosine similarity of the vectors, which it keeps beside
the store), which is floating-point arithmetic.

`tests/` holds the tests, run against the compiled library.
