# pallet_contracts

The host side of a WebAssembly smart-contract runtime, written in Verus and proved
against its contracts: how contracts read and write their sandbox memory, how host
functions are charged against a two-dimensional weight budget, the call flags and return
codes of contract-to-contract calls, the storage, call, instantiate and miscellaneous host
functions, chain extensions, the host function imports offered to contracts, and the
dispatchable calls of the module (names, indices, weights, configuration checks).

Host functions that need the outside world (storage, the execution stack, randomness)
are split in two: a verified step that charges, checks and reads its arguments and returns
a request, and a verified step that takes the answer and writes it back.

Layout:

- `src/` — the verified library; `src/laws.rs` holds the properties that relate several
  operations.
- `tests/` — tests on concrete values.
- `app/` — glue to the `wasmi` interpreter: traps, how the interpreter finished, linking
  host functions.
