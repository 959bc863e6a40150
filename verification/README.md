# might_be_async

Macros that keep a function, and the calls into it, either synchronous or
`async` depending on a Cargo feature:

- `#[func]` emits the function twice, as written under
  `#[cfg(not(feature = "F"))]` and `async` under `#[cfg(feature = "F")]`;
- `invoke!(call)` is `call.await` when the feature is on, `call` when it is off;
- `select!(a else b)` chooses between two expressions by feature.

## Layout

- `src/` is the verified core. It works on a flat model of token streams
  (`tokens`): identifiers, punctuation, literals, and the opening and closing
  delimiters of groups. `args`, `select`, `invoke` and `func` parse the
  macro inputs and build the expansions; `expand` holds the token shapes the
  expansions take and the `Gate` that says which code takes effect under which
  features; `laws` proves what the expansions do for every input; `config`
  picks the default feature name out of a manifest's text, parsed by `toml`;
  `outside` holds the calls into `syn`, `proc-macro2` and std that the proofs
  trust (the `toml` call stands beside its caller in `config`).
- `app/` turns compiler token streams into the flat model and back, reads the
  consuming crate's `Cargo.toml` file once, and reports parse errors as
  `compile_error!`.
- `tests/` runs the expansions on concrete inputs.
