# engine_test

Engines for use in a test suite, as a verified library.

- `src/` is the library. It works out how an engine is configured
  (`ctor`, `kv`, `raft`, `temp`), decides what is done about the stores of single
  regions (`kv`, `registry`), and gives them their paths (`path`, `decimal`).
  `run` puts the steps of an operation together, and `laws` states what holds from
  one operation to the next.
- `tests/` holds its tests.
- `app/` opens the engines that the library describes, with the storage libraries
  that they belong to, and does the work on disk between the steps of the
  library.

The path rules are those of platforms that separate the components of a path by
`/` alone.

One thing is believed without proof: that a `tempfile::TempDir` keeps the path
that it was made with.
