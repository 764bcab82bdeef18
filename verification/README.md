# aetherscript

Parts of the AetherScript toolchain, written in Verus: the behaviour of each
function is stated in its `requires` / `ensures` and proved.

Layout of `src/`:

- `ast.rs`: the syntax tree the analyses work on.
- `error.rs`: the errors of the analyses and of the release tooling, with the
  kind and subject of each as a mathematical value.
- `semantic/`: the semantic analyzer. `typing.rs` states as spec functions
  which type an annotation denotes and which type an expression has (including
  `match` with its patterns and the exhaustiveness check); `statements.rs`
  states how statements change the scopes; `modules.rs` states imports, type
  definitions, constants, signatures, bodies and exports of modules and
  programs; `symbols.rs` is the symbol table; `mod.rs` holds the executable
  analyzer, proved to follow those spec functions.
- `resource/`: the resource lifecycle analysis (acquisitions, releases, leaks,
  double releases, uses after a release) and the check of a module against it.
- `stdlib/`: the descriptions of the standard library modules.
- `release/`: release tooling: artifact naming, sets and generated texts;
  packaging; distribution; pipeline conditions, stage ordering and the
  decisions of a sequential run; the choice of updates to offer, with
  versions compared part by part (`version.rs`).
- `keyed.rs`, `text.rs`, `checksum.rs`: keyed lists, string helpers, and the
  digests the release tooling computes.

`app/` holds what does file, process and clock work, the pipeline runners,
and what compares floating-point numbers: the quality gates and the numeric
security rules.
