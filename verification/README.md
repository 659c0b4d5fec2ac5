# Juyu compiler front end, verified

The lexer and parser of the Juyu language, written in Verus: every
executable function carries a contract that Verus proves, except two small
trusted wrappers around std (`String::push`, and the `Debug` text of a token
kind that error messages quote).

* `src/syntax/token.rs` — tokens, spans and their mathematical views.
* `src/syntax/lexspec.rs`, `scan.rs`, `number.rs`, `indent.rs`, `chars.rs` —
  what the lexer produces, stated over the source characters; `lexer.rs`
  is the lexer, proved to produce exactly that.
* `src/syntax/ast.rs` — the syntax tree and its views; `astview.rs` states
  the view of each node constructor; `astclone.rs` copies trees, keeping
  their views.
* `src/syntax/parsespec.rs` (expressions, statements, types) and
  `itemspec.rs` (declarations) — what the parser produces from each state;
  `parser.rs` and `items.rs` are the parser, proved against them.
* `src/syntax/diag.rs` — syntax error messages,
  `error[E1xxx] at line L, col C: ...`, with the codes of the diagnostics
  reference (E1001 expected token to E1007 bad array length).
* `src/syntax/laws.rs` — properties over many calls: the lexer moves
  forward and repeats an empty `Eof` at the end, spans come in order, a
  token's line and column count the line feeds before it, words are
  keywords or names, statements end with `;`, a file parses only when all
  of it is consumed, and the word operators `bitand`, `bitor`, `bitxor`
  bind as `&`, `|`, `^`.
* `src/toolchain.rs` — which Clang, GCC or ripgrep the driver may use,
  decided by the major version number in their `--version` text (Clang 19+,
  GCC 14+, ripgrep 15+).
* `src/commands.rs` — the bootstrap formatter (trailing whitespace trimmed,
  one final line feed; proved idempotent), the discovery of `test`
  blocks, and the REPL's decision on each line it reads.
* `src/lib.rs` — `parse_source`.
* `app/main.rs` — the `juyu` command-line driver.

The common indentation of a multiline string literal is counted and cut
in characters, so every text lexes.

A number literal with a fraction is kept as its text (`TokenKind::Float`,
`Expr::Float`).
