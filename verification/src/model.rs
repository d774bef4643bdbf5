//! The mathematical model of the store: a finite map from keys to the SQL
//! cells that hold their values, and what each operation does to it.

use vstd::prelude::*;

verus! {

/// A value as SQLite stores it in the value column: text or a blob.
pub enum Cell {
    Text(Seq<char>),
    Blob(Seq<u8>),
}

/// The contents of the store's table: each key mapped to its value cell.
pub type Table = Map<Seq<char>, Cell>;

/// A parameter bound to a `?` of a statement.
pub enum SqlArg<'a> {
    Text(&'a str),
    Blob(&'a [u8]),
}

impl<'a> SqlArg<'a> {
    /// The cell that binding this parameter stores.
    pub open spec fn cell(self) -> Cell {
        match self {
            SqlArg::Text(s) => Cell::Text(s@),
            SqlArg::Blob(b) => Cell::Blob(b@),
        }
    }
}

/// What a lookup of `key` finds in `t`.
pub open spec fn lookup(t: Table, key: Seq<char>) -> Option<Cell> {
    if t.contains_key(key) {
        Some(t[key])
    } else {
        None
    }
}

/// The table after `key` is set to `cell`, replacing any earlier value.
pub open spec fn after_insert(t: Table, key: Seq<char>, cell: Cell) -> Table {
    t.insert(key, cell)
}

/// The table after the row of `key`, if any, is deleted.
pub open spec fn after_remove(t: Table, key: Seq<char>) -> Table {
    t.remove(key)
}

/// The table after every row is deleted.
pub open spec fn after_clear(t: Table) -> Table {
    Map::empty()
}

/// Number of pairs in the table.
pub open spec fn size(t: Table) -> nat {
    t.dom().len()
}

} // verus!
