//! The store: one SQLite connection whose table maps string keys to values.

use std::marker::PhantomData;
use std::path::Path;

use vstd::prelude::*;

use crate::model::{
    after_clear, after_insert, after_remove, lookup, size, Cell, SqlArg, Table,
};
use crate::sqlite::{
    busy_timeout_ms, connection_is_private, execute, open_file, open_in_memory, opened_on,
    query_integer, same_settings, set_busy_timeout, table_rows,
};
use crate::statements::{
    settles, clear_sql, count_sql, create_table_effect, create_table_sql, exists_sql, is_empty_sql,
    replace_sql,
};
use crate::value::{option_cell, StoreValue};

verus! {

/// How long, in seconds, a connection waits for a lock that another
/// connection or process holds before the operation fails.
///
/// Every operation is a single autocommit statement, so two writers simply
/// take turns; the wait only matters when another process holds the write
/// lock for a long time. The timeout is generous so that a slow but live
/// lock holder is tolerated.
pub const BUSY_TIMEOUT_SECS: u64 = 30;

/// A failure of the underlying SQLite call.
#[derive(Debug)]
pub enum StoreError {
    Sqlite(rusqlite::Error),
}

/// Carries the error of a SQLite call over to the store's error.
pub fn lift_error<T>(raw: Result<T, rusqlite::Error>) -> (r: Result<T, StoreError>)
    ensures
        match raw {
            Ok(v) => r == Ok::<T, StoreError>(v),
            Err(e) => r == Err::<T, StoreError>(StoreError::Sqlite(e)),
        },
{
    match raw {
        Ok(v) => Ok(v),
        Err(e) => Err(StoreError::Sqlite(e)),
    }
}

/// The connection once setting its busy timeout answered `set`: the
/// connection itself when that call succeeded, that call's error otherwise.
pub fn after_busy_timeout(connection: rusqlite::Connection, set: Result<(), rusqlite::Error>) -> (r:
    Result<rusqlite::Connection, StoreError>)
    ensures
        match set {
            Ok(()) => r == Ok::<rusqlite::Connection, StoreError>(connection),
            Err(e) => r == Err::<rusqlite::Connection, StoreError>(StoreError::Sqlite(e)),
        },
{
    match set {
        Ok(()) => Ok(connection),
        Err(e) => Err(StoreError::Sqlite(e)),
    }
}

/// Reads the answer of a query for a boolean: any answer but 0 is true.
pub fn flag_from_answer(raw: Result<i64, rusqlite::Error>) -> (r: Result<bool, StoreError>)
    ensures
        match raw {
            Ok(n) => r == Ok::<bool, StoreError>(n != 0),
            Err(e) => r == Err::<bool, StoreError>(StoreError::Sqlite(e)),
        },
{
    match raw {
        Ok(n) => Ok(n != 0),
        Err(e) => Err(StoreError::Sqlite(e)),
    }
}

/// Reads the answer of a count query as a length.
pub fn len_from_count(raw: Result<i64, rusqlite::Error>) -> (r: Result<usize, StoreError>)
    ensures
        match raw {
            Ok(n) => r == Ok::<usize, StoreError>(n as usize),
            Err(e) => r == Err::<usize, StoreError>(StoreError::Sqlite(e)),
        },
{
    match raw {
        Ok(n) => Ok(n as usize),
        Err(e) => Err(StoreError::Sqlite(e)),
    }
}

/// A simple key-value store backed by SQLite, generic over its value type.
///
/// Use one of the aliases `KVStore` (string values) or `BlobStore` (binary
/// values) rather than naming `Store` directly.
pub struct Store<V> {
    connection: rusqlite::Connection,
    marker: PhantomData<V>,
}

/// A key-value store mapping string keys to string values.
pub type KVStore = Store<String>;

/// A key-value store mapping string keys to binary (`Vec<u8>`) values.
pub type BlobStore = Store<Vec<u8>>;

impl<V: StoreValue> Store<V> {
    /// Whether no other connection reaches this store's database, so that
    /// its contents change only through this store.
    pub closed spec fn is_private(&self) -> bool {
        connection_is_private(self.connection)
    }

    /// The pairs the store holds. It describes the store only when the
    /// store is private: a shared database may change at any moment.
    pub closed spec fn table(&self) -> Table {
        match table_rows(self.connection) {
            Some(t) => t,
            None => Map::empty(),
        }
    }

    /// Whether the store is kept in the database file at `path`.
    pub closed spec fn is_opened_on(&self, path: &Path) -> bool {
        opened_on(self.connection, path)
    }

    /// How long, in milliseconds, the store waits for a lock that another
    /// connection holds before an operation fails.
    pub closed spec fn busy_timeout_ms(&self) -> int {
        busy_timeout_ms(self.connection)
    }

    /// A private store's table exists, holds finitely many pairs, and holds
    /// only cells of the value type's kind (one value type per database).
    pub closed spec fn well_formed(&self) -> bool {
        self.is_private() ==> {
            &&& table_rows(self.connection) is Some
            &&& self.table().dom().finite()
            &&& forall|key: Seq<char>| #[trigger]
                self.table().contains_key(key) ==> V::has_kind(self.table()[key])
        }
    }

    /// What a well-formed private store's table is known to be: finite,
    /// and made of cells of the value type's kind.
    pub proof fn lemma_well_formed_table(&self)
        requires
            self.well_formed(),
            self.is_private(),
        ensures
            self.table().dom().finite(),
            forall|key: Seq<char>| #[trigger]
                self.table().contains_key(key) ==> V::has_kind(self.table()[key]),
    {
    }

    /// Creates a new store held in memory, empty and private.
    ///
    /// An in-memory store is in practice worse than a `HashMap` in every
    /// way; it serves mainly for testing.
    pub fn new_in_memory() -> (r: Result<Self, StoreError>)
        ensures
            r matches Ok(s) ==> {
                &&& s.well_formed()
                &&& s.is_private()
                &&& s.table() == Map::<Seq<char>, Cell>::empty()
                &&& s.busy_timeout_ms() == BUSY_TIMEOUT_SECS * 1000
            },
    {
        Self::from_connection(open_in_memory())
    }

    /// Creates (or opens) a store kept in the database file `filename`.
    pub fn new_from_file(filename: &Path) -> (r: Result<Self, StoreError>)
        ensures
            r matches Ok(s) ==> {
                &&& s.well_formed()
                &&& s.is_opened_on(filename)
                &&& s.busy_timeout_ms() == BUSY_TIMEOUT_SECS * 1000
            },
    {
        Self::from_connection(open_file(filename))
    }

    /// Makes a store of the result of opening a connection: a failed open
    /// is returned as the error; otherwise the busy timeout is set and the
    /// table is made sure to exist, and a failure of either is returned.
    fn from_connection(opened: Result<rusqlite::Connection, rusqlite::Error>) -> (r: Result<
        Self,
        StoreError,
    >)
        requires
            opened matches Ok(c) ==> {
                &&& table_rows(c) is Some ==> table_rows(c)->0.dom().finite()
                &&& connection_is_private(c) ==> table_rows(c) is None
            },
        ensures
            opened matches Err(e) ==> r == Err::<Self, StoreError>(StoreError::Sqlite(e)),
            r matches Ok(s) ==> {
                &&& opened is Ok
                &&& s.well_formed()
                &&& s.is_private() == connection_is_private(opened->Ok_0)
                &&& s.is_private() ==> s.table() == Map::<Seq<char>, Cell>::empty()
                &&& forall|path: &Path| #[trigger]
                    s.is_opened_on(path) == opened_on(opened->Ok_0, path)
                &&& s.busy_timeout_ms() == BUSY_TIMEOUT_SECS * 1000
            },
    {
        let mut connection = match lift_error(opened) {
            Ok(c) => c,
            Err(e) => return Err(e),
        };
        let set = set_busy_timeout(&mut connection, BUSY_TIMEOUT_SECS);
        let connection = match after_busy_timeout(connection, set) {
            Ok(c) => c,
            Err(e) => return Err(e),
        };
        let mut store = Store { connection, marker: PhantomData };
        match store.create_table() {
            Ok(()) => Ok(store),
            Err(e) => Err(e),
        }
    }

    /// Makes sure the store's table exists.
    fn create_table(&mut self) -> (r: Result<(), StoreError>)
        ensures
            final(self).is_private() == old(self).is_private(),
            same_settings(old(self).connection, final(self).connection),
            old(self).is_private() ==> settles(
                table_rows(old(self).connection),
                table_rows(final(self).connection),
                r is Ok,
                create_table_effect(table_rows(old(self).connection)),
            ),
    {
        let sql = create_table_sql();
        let args: Vec<SqlArg> = Vec::new();
        let raw = execute(&mut self.connection, sql.as_str(), args.as_slice());
        proof {
            assert(args@.len() == 0);
        }
        match lift_error(raw) {
            Ok(_) => Ok(()),
            Err(e) => Err(e),
        }
    }

    /// Inserts a key-value pair, overwriting any existing value.
    ///
    /// On a private store, success sets `key` to the cell of `value`; a
    /// failure leaves the table as it was or with the pair set.
    pub fn insert(&mut self, key: &str, value: &V::Ref) -> (r: Result<(), StoreError>)
        requires
            old(self).well_formed(),
        ensures
            final(self).well_formed(),
            final(self).is_private() == old(self).is_private(),
            final(self).busy_timeout_ms() == old(self).busy_timeout_ms(),
            forall|path: &Path| #[trigger]
                final(self).is_opened_on(path) == old(self).is_opened_on(path),
            old(self).is_private() ==> {
                let expected = after_insert(old(self).table(), key@, V::ref_cell(value));
                if r is Ok {
                    final(self).table() == expected
                } else {
                    final(self).table() == old(self).table() || final(self).table() == expected
                }
            },
    {
        let sql = replace_sql();
        let args: Vec<SqlArg> = vec![SqlArg::Text(key), V::to_arg(value)];
        let ghost before = self.table();
        let raw = execute(&mut self.connection, sql.as_str(), args.as_slice());
        proof {
            if old(self).is_private() {
                V::lemma_ref_cell_has_kind(value);
                let written = after_insert(before, key@, V::ref_cell(value));
                assert forall|k: Seq<char>| #[trigger] written.contains_key(k) implies V::has_kind(
                    written[k],
                ) by {
                    if k != key@ {
                        assert(before.contains_key(k));
                    }
                }
            }
        }
        match raw {
            Ok(_) => Ok(()),
            Err(e) => Err(StoreError::Sqlite(e)),
        }
    }

    /// Checks whether `key` is in the store.
    pub fn contains_key(&self, key: &str) -> (r: Result<bool, StoreError>)
        requires
            self.well_formed(),
        ensures
            self.is_private() && r is Ok ==> r->Ok_0 == self.table().contains_key(key@),
    {
        let sql = exists_sql();
        let args: Vec<SqlArg> = vec![SqlArg::Text(key)];
        flag_from_answer(query_integer(&self.connection, sql.as_str(), args.as_slice()))
    }

    /// Retrieves the value stored for `key`, if any.
    pub fn get(&self, key: &str) -> (r: Result<Option<V>, StoreError>)
        requires
            self.well_formed(),
        ensures
            self.is_private() && r is Ok ==> option_cell(r->Ok_0) == lookup(self.table(), key@),
    {
        lift_error(V::select(&self.connection, key))
    }

    /// Removes `key` from the store, returning its old value if it had one.
    ///
    /// On a private store, success returns the key's value and deletes its
    /// row; a failure leaves the table with or without that row.
    pub fn remove(&mut self, key: &str) -> (r: Result<Option<V>, StoreError>)
        requires
            old(self).well_formed(),
        ensures
            final(self).well_formed(),
            final(self).is_private() == old(self).is_private(),
            final(self).busy_timeout_ms() == old(self).busy_timeout_ms(),
            forall|path: &Path| #[trigger]
                final(self).is_opened_on(path) == old(self).is_opened_on(path),
            old(self).is_private() ==> {
                let expected = after_remove(old(self).table(), key@);
                if r is Ok {
                    &&& option_cell(r->Ok_0) == lookup(old(self).table(), key@)
                    &&& final(self).table() == expected
                } else {
                    final(self).table() == old(self).table() || final(self).table() == expected
                }
            },
    {
        lift_error(V::take(&mut self.connection, key))
    }

    /// Removes every key-value pair from the store.
    pub fn clear(&mut self) -> (r: Result<(), StoreError>)
        requires
            old(self).well_formed(),
        ensures
            final(self).well_formed(),
            final(self).is_private() == old(self).is_private(),
            final(self).busy_timeout_ms() == old(self).busy_timeout_ms(),
            forall|path: &Path| #[trigger]
                final(self).is_opened_on(path) == old(self).is_opened_on(path),
            old(self).is_private() ==> {
                let expected = after_clear(old(self).table());
                if r is Ok {
                    final(self).table() == expected
                } else {
                    final(self).table() == old(self).table() || final(self).table() == expected
                }
            },
    {
        let sql = clear_sql();
        let args: Vec<SqlArg> = Vec::new();
        let raw = execute(&mut self.connection, sql.as_str(), args.as_slice());
        proof {
            assert(args@.len() == 0);
        }
        match raw {
            Ok(_) => Ok(()),
            Err(e) => Err(StoreError::Sqlite(e)),
        }
    }

    /// Checks whether the store holds no pairs.
    ///
    /// A shared store may change right after the answer.
    pub fn is_empty(&self) -> (r: Result<bool, StoreError>)
        requires
            self.well_formed(),
        ensures
            self.is_private() && r is Ok ==> r->Ok_0 == (size(self.table()) == 0),
    {
        let sql = is_empty_sql();
        let args: Vec<SqlArg> = Vec::new();
        let raw = query_integer(&self.connection, sql.as_str(), args.as_slice());
        proof {
            assert(args@.len() == 0);
        }
        flag_from_answer(raw)
    }

    /// Returns the number of pairs in the store.
    ///
    /// A shared store may change right after the answer.
    pub fn len(&self) -> (r: Result<usize, StoreError>)
        requires
            self.well_formed(),
        ensures
            self.is_private() && r is Ok && size(self.table()) <= usize::MAX ==> r->Ok_0 == size(
                self.table(),
            ),
    {
        let sql = count_sql();
        let args: Vec<SqlArg> = Vec::new();
        let raw = query_integer(&self.connection, sql.as_str(), args.as_slice());
        proof {
            assert(args@.len() == 0);
        }
        len_from_count(raw)
    }
}

} // verus!
