# extra_lints

More lints for Rust, with machine-checked contracts.

- `eq_op` (warn): equal expressions on both sides of a comparison, `&&`, `||`
  or a bitwise `&`, `|`, `^`, as in `1 == 1`.
- `bad_bit_mask` (deny): comparisons of a masked value that cannot come out
  both ways, as in `x & 1 == 2`.

Layout:

- `src/ast.rs`: the model of the syntax tree that the lints read.
- `src/derived.rs`: node identity (field-by-field equality of syntax nodes),
  with proofs that it is an equivalence.
- `src/eq_op.rs`: when two expressions, types or patterns count as equal, and
  the `eq_op` pass.
- `src/bit_mask.rs`: the `bad_bit_mask` pass and its table.
- `src/lint.rs`: lints, diagnostics and their text.
- `src/laws.rs`: what holds of the passes as a whole (the bit-mask table is
  exact; equality of operands is symmetric, transitive, sees through
  parentheses, and is reflexive exactly on the forms it looks into).
- `src/lib.rs`: lint-pass objects, the registry and `plugin_registrar`.
- `app/`: the compiler plugin that reads the compiler's syntax tree into the
  model and reports the diagnostics; it needs the compiler's own crates.
