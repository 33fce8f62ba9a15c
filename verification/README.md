# gallery_core

Core logic of a self-hosted media library, verified with Verus.

- `src/db` — results of database writes, field patches, joins of linked
  models by key, parsing of concatenated thumbnail columns and the color
  bounds of similarity searches.
- `src/fs` — relative storage paths, path sharding, storage errors, file
  system statistics and the local storage backend's path resolution.
- `src/flake` — flake identifiers: their bit layout and the sequence state of
  the generator.
- `src/instance` — application configuration, library manifests and the
  libraries found in a directory.
- `app/` — the runtime around the library: asynchronous database and storage
  interfaces, the SQLite driver, the event bus, the clock-driven id generator,
  operating-system calls and the toml configuration files.
