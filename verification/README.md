# litho

A GraphQL toolchain whose core is verified with Verus.

## Layout

- `src/lex`: sources, spans, the character classes and the scanner that
  splits a source into tokens, and the lexer the parser reads.
- `src/syn`: a recovering recursive-descent parser. As many tokens as it
  reads are in the tree or among the skipped tokens, and every syntax error
  it records can be reported.
- `src/ast`: the syntax tree, the spans its tokens cover, congruence of trees
  (an equivalence), and conversion of values to JSON.
- `src/chk`: collection of the syntax errors recorded in a tree.
- `src/fmt`: the formatter. Each layout of each node is described by the
  writes it makes; the formatting code is proved to make exactly those.
- `src/compiler`: the dependency graph between definitions and the compiler
  state that keeps documents, definitions and their diagnostics in step.
- `src/codegen`: line indexes, positions, and the generator of TypeScript
  declarations.
- `src/import`: conversion of introspection results into a schema.
- `app/`: command-line and network plumbing, serde copies of library types,
  and report rendering.
- `tests/`: tests on concrete inputs.
