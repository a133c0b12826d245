# orcs

The domain logic of ORCS, a multi-agent chat application: slash commands,
user profiles, application state and tabs, workspaces, personas, sessions,
dialogue presets, tasks and their lifecycle events, quick actions, secrets,
the versioned records everything is stored as, and the migrations between
their schemas. The functions under `src/` are verified with Verus against
their `requires`/`ensures` contracts, except a few small wrappers around
outside calls (marked `external_body`), whose contracts are trusted.

## Layout

- `src/` — the verified library. Each module holds a domain type with its
  operations, or the stored records of one entity with their migrations and
  conversions. Calls into `semver`, `uuid`, `serde_json`, `llm_toolkit`,
  `dirs`, `version_migrate` and `std` functions without a specification go
  through small trusted wrappers whose contracts state what those functions
  do.
- `tests/` — tests of the library.
- `app/` — the services around the library: file-backed repositories, the
  configuration and secret services, the ripgrep runner, the task executor and
  the tracing layer. They read and write files, run processes and await, and
  turn stored files into the library's records; the migrations, orderings,
  validation and task lifecycle they apply are the library's.
