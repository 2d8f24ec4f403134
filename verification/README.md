# stage0

The front end of the Nitro compiler as a Verus-verified library: the item grammar of
Nitro source files, the package format, and the steps that build a project into a package.

- `src/lexer.rs`: tokens, syntax errors, and the cursor that the parser reads tokens with.
- `src/ast/`: source files and their items. `grammar.rs` states the grammar as spec
  functions over the tokens, with the properties that every parsed file has; the parsers in
  `mod.rs`, `attr.rs` and `stmt.rs` are proved to follow it exactly.
- `src/pkg/`: packages (at most one executable and one library per target), package
  names, versions, targets, and the header of a package file.
- `src/project/`: projects: what `Nitro.yml` declares, the source sets of a binary, the
  linker commands and module definitions, and `builder.rs`, which says step by step what
  to compile (in `<sources>/.build/<target>`), write and link, and which error a failed
  step ends the build with.
- `app/`: the file system, YAML and the LLD linker around the library. Turning source text
  into tokens and compiling sources into objects are given to it as functions.
- `tests/`: tests on concrete values.
