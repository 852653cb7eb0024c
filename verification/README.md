# preflight

Decides what has to be fetched before a block or a batch of blocks of a Taiko chain can be proved,
and puts the input for the prover together from what came back.

- `src/` is the library. It holds every decision, with its contract proved by Verus:
  - `slot`: the beacon slot of a time;
  - `blob`: the bytes of blobs, the search for the blob of a versioned hash, commitments and proofs;
  - `beacon`: where blobs are asked for, and what is made of the answers;
  - `event`: filters for proposal events, and the search through the logs that they bring;
  - `anchor`: what the anchor transactions of blocks say;
  - `block`: blocks, their parents and headers;
  - `input`, `batch`: the preparation of the input for a block and for a batch, step by step;
  - `execute`: the rounds in which transactions are executed until all state is there;
  - `error`, `text`, `types`: failures and their words, text, and plain data;
  - `outside`: the calls into other crates, with what is taken on trust of each.
- `tests/` runs the library on concrete values.
- `app/` is the asynchronous side: it performs the actions that the library asks for.

Computations that belong to the embedding program, such as commitments to blobs and the decoding of
events, are handed to the library as functions. What the library proves holds for all of them.

Proof functions whose names begin with `law_` state what holds across functions.
