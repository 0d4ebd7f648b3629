# argon

A documentation compiler for C sources with Doxygen and CommonMark comments, written in
Verus: the library under `src/` states its behaviour in `requires`/`ensures` contracts and
Verus proves them.

## Layout

- `src/compiler` — strings and encodings, source locations and diagnostics.
- `src/driver` — the documentation manifest (its model, checks and conversion into the
  documentation graph) and compilation targets.
- `src/frontend` — arguments and templates of directive scripts, Doxygen directives and their
  predefined table, comment scanning, and the C frontend: a model of the syntax tree
  (`sema_gen`), the symbol model (`sema`), its views and printed text (`views`, `display`), and
  the reader that turns a syntax tree into symbols and comments (`walker` states it, `reader`
  does it).
- `src/ir` — the documentation graph (entries, roles, attributes, relationships) and rich text.
- `app/` — the command-line program: argument handling, file I/O, manifest decoding with serde,
  parsing C with tree-sitter, and printing diagnostics.
- `tests/` — tests of the library, run against the real outside crates.
