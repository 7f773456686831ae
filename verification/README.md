# nexus

The verified core of the Nexus headless CMS, written in Verus.

- `src/` is the library. Its functions are proved against their contracts,
  except the small trusted wrappers (marked `#[verifier::external_body]`)
  around std and outside-crate calls, whose contracts are taken as given:
  the error model and HTTP status mapping; the read-query AST and its SQL
  (filters, joins, one-to-many and any-to-one sub-queries); schema type
  mapping, introspection rows, snapshots and the DDL that applies a
  snapshot; migrations and seeding; the flow engine's state machine and its
  operations; configuration; extensions (manifests, runtimes, sandbox policy,
  registry, the WebAssembly call protocol); authentication providers; the
  document-database query translation; and the admin client's stores.
- `app/` is the `nexus` command and everything that talks to the outside
  world: files, processes, HTTP, database drivers and serialisation.
- `tests/` exercises the library on concrete values.
