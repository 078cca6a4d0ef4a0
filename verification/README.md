# yaoxiang (middle layer)

Parts of the middle layer of the YaoXiang compiler as a verified library:
the bytecode IR and its binary decoder, the high-level IR, lowering of
expressions, statements and function bodies into IR, translation of IR
instructions into encoded records, the typed-opcode choice, code-generation
bookkeeping (registers, labels, jump tables, function indices, symbol
scopes), switch lowering decisions, compile-time constant folding
(including interpolated strings) and escape analysis. Functions in `src/`
carry contracts checked by Verus, except two small wrappers around the
standard library (`String::from_utf8_lossy` and `char::to_string`) whose
contracts are trusted.

IR generation works on the expression and statement forms modelled in
`src/frontend/ast.rs` (literals, variables, operators, interpolated strings;
expression statements, bindings, returns, conditionals, imports). What it
reads of name resolution (locals, closure captures, globals, imported
aliases) is held by the generator as plain maps; types are passed in already
resolved. Loops, calls, closures, spawning and module-level items are not
modelled.

Layout:

- `src/middle/core_ir/` – IR types (`ir.rs`), bytecode instructions
  (`bytecode.rs`), the decoder from encoded files (`decode.rs`), constant
  folding and type helpers (`ir_gen.rs`) and lowering into IR
  (`expr_ir.rs`).
- `src/middle/bytecode.rs` – the bytecode IR over the symbolic opcode set.
- `src/middle/codegen/` – flow and scope management (`flow.rs`), jump-table
  decisions (`switch.rs`), IR-to-record translation (`translate.rs`), the
  typed-opcode choice (`generator.rs`), errors, settings and file headers
  (`mod.rs`).
- `src/middle/escape_analysis/` – which locals escape a function.
- `src/middle/passes/codegen/bytecode.rs` – the encoded file format.
- `src/backends/common/` – opcode numbers and the symbolic opcode set.
- `src/frontend/` – the monomorphic types, definition ids and the syntax
  forms the middle layer consumes.
- `src/util/` – decimal rendering, spans and a string-keyed map.
- `tests/` – executable tests of the library.
