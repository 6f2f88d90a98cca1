# daml

Daml-LF archives and the tooling around them, verified with Verus.

The library (`src/`) reads Daml-LF 2 packages into a navigable element tree,
validates that tree, describes packages to build from a schema, turns a
ledger's package set into archives and a DAR, converts the ledger API's wire
timestamps and durations, and builds the claims of a Canton token. Verus
proves the contracts of the library's functions. A few small functions that
call `chrono`, `uuid` or std's clock are marked `#[verifier::external_body]`:
their contracts, each documented above the function, are trusted rather than
proved.

## Layout

- `src/version.rs` — Daml-LF language versions.
- `src/lf2.rs` — the LF2 wire model of a package (interned strings, dotted
  names, types, modules, data types, templates, interfaces, exceptions,
  expressions, effects and value definitions).
- `src/payload.rs`, `src/archive.rs` — archive payloads, archives and DARs.
- `src/element/` — the element tree: types, data types, interfaces, modules,
  packages and archives; lookups, validation, the packages a package refers
  to, and a walk over the tree that calls back a visitor.
- `src/convert.rs`, `src/convert/` — converting the wire model into the
  element tree: interned-name resolution, types, data types, templates,
  interfaces, expressions and value definitions, the module tree, packages
  and whole archives.
- `src/emit/schema.rs` — the schema of a package to build, and its
  validation.
- `src/package.rs` — a ledger's package set: finding modules, naming
  archives, the packages reachable from a main one, and DARs.
- `src/datetime.rs`, `src/grpc_util.rs` — date-times, dates and spans as plain
  values, and their wire forms.
- `src/canton_auth.rs` — the claims of a Canton v2 token and their builder.
- `src/results.rs`, `src/text.rs` — shared helpers: first failures of a
  sequence of conversions, decimal text, joining names.
- `app/` — what Verus does not see: signing token claims with `jsonwebtoken`.
- `tests/` — tests run against the compiled library.
