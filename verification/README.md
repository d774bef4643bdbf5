# cute_sqlite_kv

A small persistent key-value store kept in one SQLite table, written in
Verus. `KVStore` maps string keys to string values, `BlobStore` maps string
keys to byte values; both are the generic `Store`.

Layout of `src/`:

- `model.rs`: the store's contents as a finite map from keys to SQL cells,
  and what insert, remove and clear do to it.
- `statements.rs`: the SQL statements, built from the table and column
  names, and the effect of each statement on the table.
- `sqlite.rs`: the calls into `rusqlite`, each behind a wrapper whose
  contract states what the call does.
- `value.rs`: the `StoreValue` trait, implemented for `String` (text cells)
  and `Vec<u8>` (blob cells).
- `store.rs`: `Store` and its operations, each with a contract over the
  model.
- `laws.rs`: laws of the store (a read gives back the last write, removal
  undoes a fresh insertion, sizes after each operation, ...).

Every operation returns a `Result`: a failing SQLite call comes back as
`StoreError::Sqlite`. The effects on the table are stated for a private
store, one whose database no other connection can reach (an in-memory
store); a database file may be shared with other connections and processes.

The contract of a store opened on a file states the file it was opened on
(`is_opened_on`) and its busy timeout, and nothing of the file's contents,
which other connections may change. Every store waits up to 30 seconds for
a lock held by another connection. Opening a store returns the error of
whichever step fails: opening, setting the busy timeout, or creating the
table.
