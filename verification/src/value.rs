//! The types a store can hold as values, and how each is written to and
//! read from the value column.

use vstd::prelude::*;

use crate::model::{Cell, SqlArg, after_remove, lookup};
use crate::sqlite::{
    connection_is_private, same_settings, select_blob, select_text, table_rows, take_blob, take_text,
};
use crate::statements::{select_sql, take_sql};

verus! {

/// A type that can be used as the value of a `Store`.
///
/// It ties the owned value type (what `Store::get` returns) to its borrowed
/// form (what `Store::insert` accepts). It is implemented for `String`
/// (borrowed as `str`, stored as text) and `Vec<u8>` (borrowed as `[u8]`,
/// stored as a blob).
pub trait StoreValue: Sized {
    /// The borrowed form accepted by `Store::insert`.
    type Ref: ?Sized;

    /// The cell from which this value is read.
    spec fn cell(&self) -> Cell;

    /// The cell that storing `value` writes.
    spec fn ref_cell(value: &Self::Ref) -> Cell;

    /// Whether `cell` is of the kind this type is stored as.
    spec fn has_kind(cell: Cell) -> bool;

    /// Storing a value writes a cell of the type's kind.
    proof fn lemma_ref_cell_has_kind(value: &Self::Ref)
        ensures
            Self::has_kind(Self::ref_cell(value)),
    ;

    /// The parameter that binds `value`.
    fn to_arg(value: &Self::Ref) -> (arg: SqlArg<'_>)
        ensures
            arg.cell() == Self::ref_cell(value),
    ;

    /// Runs the select query for `key` and reads the value found.
    fn select(conn: &rusqlite::Connection, key: &str) -> (r: Result<
        Option<Self>,
        rusqlite::Error,
    >)
        ensures
            connection_is_private(*conn) && table_rows(*conn) is Some
                ==> (r is Ok ==> lookup(table_rows(*conn)->0, key@) == match r->Ok_0 {
                Some(v) => Some(v.cell()),
                None => None,
            }),
    ;

    /// Runs the delete-returning statement for `key` and reads the value
    /// it returns.
    fn take(conn: &mut rusqlite::Connection, key: &str) -> (r: Result<
        Option<Self>,
        rusqlite::Error,
    >)
        ensures
            connection_is_private(*final(conn)) == connection_is_private(*old(conn)),
            same_settings(*old(conn), *final(conn)),
            connection_is_private(*old(conn)) && table_rows(*old(conn)) is Some ==> {
                let t = table_rows(*old(conn))->0;
                let after = table_rows(*final(conn));
                if r is Ok {
                    &&& lookup(t, key@) == match r->Ok_0 {
                        Some(v) => Some(v.cell()),
                        None => None,
                    }
                    &&& after == Some(after_remove(t, key@))
                } else {
                    after == Some(t) || after == Some(after_remove(t, key@))
                }
            },
    ;
}

/// The cell of an optional value.
pub open spec fn option_cell<V: StoreValue>(o: Option<V>) -> Option<Cell> {
    match o {
        Some(v) => Some(v.cell()),
        None => None,
    }
}

impl StoreValue for String {
    type Ref = str;

    open spec fn cell(&self) -> Cell {
        Cell::Text(self@)
    }

    open spec fn ref_cell(value: &str) -> Cell {
        Cell::Text(value@)
    }

    open spec fn has_kind(cell: Cell) -> bool {
        cell is Text
    }

    proof fn lemma_ref_cell_has_kind(value: &str) {
    }

    fn to_arg(value: &str) -> (arg: SqlArg<'_>) {
        SqlArg::Text(value)
    }

    fn select(conn: &rusqlite::Connection, key: &str) -> (r: Result<
        Option<String>,
        rusqlite::Error,
    >) {
        let sql = select_sql();
        select_text(conn, sql.as_str(), key)
    }

    fn take(conn: &mut rusqlite::Connection, key: &str) -> (r: Result<
        Option<String>,
        rusqlite::Error,
    >) {
        let sql = take_sql();
        take_text(conn, sql.as_str(), key)
    }
}

impl StoreValue for Vec<u8> {
    type Ref = [u8];

    open spec fn cell(&self) -> Cell {
        Cell::Blob(self@)
    }

    open spec fn ref_cell(value: &[u8]) -> Cell {
        Cell::Blob(value@)
    }

    open spec fn has_kind(cell: Cell) -> bool {
        cell is Blob
    }

    proof fn lemma_ref_cell_has_kind(value: &[u8]) {
    }

    fn to_arg(value: &[u8]) -> (arg: SqlArg<'_>) {
        SqlArg::Blob(value)
    }

    fn select(conn: &rusqlite::Connection, key: &str) -> (r: Result<
        Option<Vec<u8>>,
        rusqlite::Error,
    >) {
        let sql = select_sql();
        select_blob(conn, sql.as_str(), key)
    }

    fn take(conn: &mut rusqlite::Connection, key: &str) -> (r: Result<
        Option<Vec<u8>>,
        rusqlite::Error,
    >) {
        let sql = take_sql();
        take_blob(conn, sql.as_str(), key)
    }
}

} // verus!
