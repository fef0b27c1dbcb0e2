# random_test_cli

The `rt` command generates sample test cases from cp-ast-ecosystems share
links. This crate holds its logic as a Verus-verified library:

- `src/link_state.rs` – taking the `state` value out of a share URL, a bare
  query string or a state given directly.
- `src/version.rs` – normalising release versions, reading their numeric parts,
  comparing them and deciding whether a release is an update, with the order
  laws proved.
- `src/update.rs` – the GitHub repository path, the release reply and each step
  of a self-update.
- `src/ast.rs`, `src/ast_dto.rs` – the problem document and the checked
  conversion from its JSON schema (schema version, decimal ids, arena slots
  matching their ids, known variant names, first failure reported).
- `src/generation.rs` – the calls into cp-ast-json and cp-ast-core; each value
  they hand back keeps the share state and seed it was made from, and a decoded
  document carries its structure and constraints as the library's values.
- `src/generable.rs` – which documents the generator can work through: no node
  nested under itself, and no constraint that leaves it an empty range to draw
  from.
- `src/sample.rs` – from a link to the text of one generated sample.
- `src/text.rs` – character-level helpers: trimming, splitting, decimal numbers.

`app/` is the command line around it: argument parsing, reading input files,
opening the browser, running curl and the installer, and the serde schema types.
