# ordadb_sql

SQL parsing for four dialects (PostgreSQL, MySQL, SQLite and SQL Server) and binding
against a catalog, written in Verus.

- `parse` and `parse_with_dialect` turn one statement into a `ParsedStatement`. The
  grammar is that of the `sqlparser` crate; what its tree means, and the PostgreSQL
  statements that it does not read, are decided here.
- `bind` and `bind_with_session` look names up in a `Catalog`, settle the types of
  parameters and give a `BoundStatement`.
- `classify_statement_effect` tells statements that only read from those that do not.
- `bind_catalog_expression` and its variants bind defaults, checks and other expressions
  that a catalog stores as text.

## Layout

- `src/` is the library. A rule (a `spec fn` over the mathematical contents of the types)
  says what each step gives; the function beside it is proved to compute just that.
  `lemma_` functions state what holds of the rules as a whole: bound expressions are well
  typed and read only columns in scope (`soundness`), lowering leaves no subquery or
  window behind (`lowering`), everything a session or a parameter type settles is settled
  (`resolved`), references are just the objects that a query reads, in order (`dependencies`),
  and more beside the rules that they are about.
- `src/outside.rs` holds every call into another crate, each with the contract that is
  taken on trust. `src/tree.rs` and `src/tree_rest.rs` declare the types of the parser's
  tree.
- `tests/` runs the library with the real crates.
- `app/` holds the serialised forms of two types.
