# rust_knowledge

Documentation knowledge for the resolved Cargo dependency universe of a
workspace: which packages cargo resolved, rustdoc JSON of each turned into
retrievable documents with exact package provenance and stable ids, and the
decisions of the command-line and MCP frontends.

The library under `src/` is verified with Verus. Public functions state
their results in their contracts; where a result depends on something
outside the library (which files exist, the working directory, what an
outside parser makes of a text), the contract says what holds whatever
came back, and a verified function that takes that outcome as an argument
says the rest. Properties that span functions are proved as `law_*`
proof functions.

- `id`, `model`, `query`, `error`: document ids, documents and package
  identities, queries, and error messages.
- `cargo`: the resolved universe (lookups, origins, features, fingerprint)
  how the cargo binary is chosen (`cargo::discovery`), and cargo metadata
  JSON (`cargo::metadata`).
- `rustdoc`: the rustdoc JSON model, signature rendering, reading an
  artifact's text, normalization of a crate into documents, and artifact
  generation decisions.
- `listing`, `config_docs`, `mcp`, `pipeline`, `config`, `store`, `eval`,
  `workspace`: the listing table, the configuration reference page, the
  MCP server's startup decisions, index resolution, configuration, index
  metadata, retrieval evaluation, and manifest discovery.
- `demo`: the fixture workspace's small runtime library.

`app/` is the `rust-knowledge` binary: it reads the environment, runs cargo
and rustup, reads and writes files, and prints. `tests/` exercises the
library on concrete values.
