# capi_wasm

The logic behind the web frontend of Capi DAOs on Algorand: validating the
forms that create DAOs and projects, formatting amounts, dates, links and
roadmaps for display, checking the groups of transactions that the wallet
signs, and mapping errors to the form JavaScript reads. The library is
verified with Verus.

- `src/` — the verified library. `text` and `number_text` hold the text
  helpers (trimming, decimal digits, `u64` parsing) with their laws;
  `address` and `decimal` wrap `algonaut` addresses and `rust_decimal`
  decimals; `dependencies` reads the build settings; `js/` holds the
  frontend logic, one module per feature; `error` the errors returned to
  JavaScript.
- `tests/` — tests on concrete values, run with the real outside crates.
- `app/` — the unverified edge: the serde forms of the library's types and
  their conversion to JavaScript values, settings read at build time, and
  adapters to `algonaut`'s types, and glue that feeds the library's flows
  from JavaScript values. The `bridge_*` entry points that JavaScript calls
  are not here: each of them loads chain state or builds transactions
  through the project's own `core`, `mbase`, `base`, `make` and `my_algo`
  crates, which this repository does not hold; the library takes what they
  return as plain values.

The calls into outside crates (`algonaut`, `rust_decimal`, `chrono`,
`data-encoding`, `rmp-serde`) stand behind small trusted wrappers in `src/`;
each states in its doc comment what its contract claims of the outside
function.
