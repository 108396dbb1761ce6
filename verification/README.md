# frel_compiler_core

The core of the Frel compiler front end, written in Verus: the library's
functions are verified against their `requires`/`ensures` contracts; the few
calls into std whose behaviour vstd does not describe stand behind small
trusted wrappers.

- `src/lexer` — the lexer. Every token has the shape of its kind, tokens come
  in order, and only blanks and comments lie between them. A token's kind
  follows from its first bytes: words, numbers, strings, colors and
  operators are fixed exactly, and every error token carries the diagnostic
  code the error registry gives its kind of error.
- `src/parser` — the recursive-descent parser. Type expressions and
  expressions are specified by a grammar over the token stream (where each
  construct ends and what it reads); a file exists exactly when the input
  starts with a module declaration, with that module's name and imports.
  `parser/layout.rs` parses layout blocks (grids of cells) exactly.
- `src/ast` — the syntax tree and its DUMP text, specified as a function of
  the tree.
- `src/diagnostic` — diagnostics, error codes, and their terminal rendering;
  with the color codes taken out, the colored rendering is the plain one.
- `src/semantic` — types, scopes, symbols, module signatures, operator typing
  rules, type-expression resolution, expression type inference (the type and
  the errors of every expression form, stated as spec functions of the
  expression and its scope context), the instruction registry, and the DUMP
  text of an analysis result.
- `src/source.rs`, `src/text.rs` — spans, line index, and text helpers.

`app/` holds the command-line driver and the JSON output, which use
outside crates (clap, serde); `tests/` holds the tests.
