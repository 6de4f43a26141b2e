# trisult

An accumulating alternative to `Result`, verified with Verus.

A `Trisult` is either `OkWith(Diagnosed(value, warnings))` or `ErrWith(diagnoses)`. Diagnoses
are collected in a `Contextuals` accumulator, each paired with the context it came from,
under one of two policies:

- `All` keeps every item, in order;
- `Most` keeps a single item, the first one of highest priority (an error outranks a
  warning), and counts the others as ignored.

Layout:

- `src/acc/`: the policies (`AllState`, `MostAcc`, the run-time chosen `AccumulatorState`)
  and the spec functions that describe them;
- `src/contextual.rs`: `Contextual` and the `Contextuals` accumulator, with its abstract
  state `Accumulated`;
- `src/diagnosis.rs`, `src/trisult.rs`: diagnoses and the `Trisult` combinators;
- `src/session.rs`: `Session`, the run-time side of a function that gathers diagnoses as
  it goes; it fails exactly when an error was emitted or unpacked, or when it has no value;
- `src/iter.rs`: cursors over accumulated items;
- `src/laws.rs`: properties that span several operations, proved;
- `app/`: the code generation of the `trisult` attribute (over `syn` and `quote`) and the
  `custom_trisult!` alias macro.

The `All` policy keeps its items in a `Vec`. The contracts describe a state by the
sequence of items it holds, for any item type; that sequence cannot be named for an
outside small-vector type generic in its items, so a `Vec`, whose contents vstd
specifies, holds them instead.

The code-generation functions in `app/` work on `proc_macro2` token streams; a
procedural-macro crate exposes them as the `#[trisult]` attribute.
