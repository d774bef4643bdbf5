//! The SQL statements that the store sends, built from the table and
//! column names, and what each of them does to the table.

use vstd::prelude::*;
use vstd::string::*;

use crate::model::{after_clear, after_insert, Cell, SqlArg, Table};

verus! {

/// Name of the table that holds the pairs.
pub const TABLE: &'static str = "KVStore_table";

/// Name of the key column.
pub const KEY_COLUMN: &'static str = "KVStore_key";

/// Name of the value column.
pub const VAL_COLUMN: &'static str = "KVStore_val";

/// `CREATE TABLE IF NOT EXISTS T (K varchar PRIMARY KEY UNIQUE NOT NULL, V)`
pub open spec fn create_table_statement() -> Seq<char> {
    "CREATE TABLE IF NOT EXISTS "@ + TABLE@ + " ("@ + KEY_COLUMN@
        + " varchar PRIMARY KEY UNIQUE NOT NULL, "@ + VAL_COLUMN@ + ")"@
}

/// `REPLACE INTO T (K, V) VALUES (?, ?)`
pub open spec fn replace_statement() -> Seq<char> {
    "REPLACE INTO "@ + TABLE@ + " ("@ + KEY_COLUMN@ + ", "@ + VAL_COLUMN@
        + ") VALUES (?, ?)"@
}

/// `SELECT EXISTS(SELECT 1 FROM T WHERE K = ?)`
pub open spec fn exists_statement() -> Seq<char> {
    "SELECT EXISTS(SELECT 1 FROM "@ + TABLE@ + " WHERE "@ + KEY_COLUMN@ + " = ?)"@
}

/// `SELECT V FROM T WHERE K = ?`
pub open spec fn select_statement() -> Seq<char> {
    "SELECT "@ + VAL_COLUMN@ + " FROM "@ + TABLE@ + " WHERE "@ + KEY_COLUMN@ + " = ?"@
}

/// `DELETE FROM T WHERE K = ? RETURNING V`
pub open spec fn take_statement() -> Seq<char> {
    "DELETE FROM "@ + TABLE@ + " WHERE "@ + KEY_COLUMN@ + " = ? RETURNING "@ + VAL_COLUMN@
}

/// `DELETE FROM T`
pub open spec fn clear_statement() -> Seq<char> {
    "DELETE FROM "@ + TABLE@
}

/// `SELECT NOT EXISTS(SELECT 1 FROM T)`
pub open spec fn is_empty_statement() -> Seq<char> {
    "SELECT NOT EXISTS(SELECT 1 FROM "@ + TABLE@ + ")"@
}

/// `SELECT COUNT(*) FROM T`
pub open spec fn count_statement() -> Seq<char> {
    "SELECT COUNT(*) FROM "@ + TABLE@
}

/// Whether `sql` is one of the statements the store sends. None of them
/// changes a connection's settings or the file it is open on.
pub open spec fn is_store_statement(sql: Seq<char>) -> bool {
    ||| sql == create_table_statement()
    ||| sql == replace_statement()
    ||| sql == exists_statement()
    ||| sql == select_statement()
    ||| sql == take_statement()
    ||| sql == clear_statement()
    ||| sql == is_empty_statement()
    ||| sql == count_statement()
}

/// Whether `args` binds exactly the parameters of `sql`, for a statement
/// the store executes: none for the create and delete-all statements, a
/// text key and a value for the replace statement.
pub open spec fn binds_execute(sql: Seq<char>, args: Seq<SqlArg>) -> bool {
    ||| sql == create_table_statement() && args.len() == 0
    ||| sql == replace_statement() && args.len() == 2 && args[0] is Text
    ||| sql == clear_statement() && args.len() == 0
}

/// Whether `args` binds exactly the parameters of `sql`, for a query the
/// store answers with an integer: a text key for the exists query, none
/// for the is-empty and count queries.
pub open spec fn binds_integer_query(sql: Seq<char>, args: Seq<SqlArg>) -> bool {
    ||| sql == exists_statement() && args.len() == 1 && args[0] is Text
    ||| sql == is_empty_statement() && args.len() == 0
    ||| sql == count_statement() && args.len() == 0
}

/// Relates the table before and after a statement that, when it succeeds,
/// leaves `expected`; a failed statement leaves the table as it was or,
/// at worst, as the statement would have left it.
pub open spec fn settles(
    before: Option<Table>,
    after: Option<Table>,
    succeeded: bool,
    expected: Option<Table>,
) -> bool {
    if succeeded {
        after == expected
    } else {
        after == before || after == expected
    }
}

/// The table that the create statement leaves: the existing one, or a new
/// empty one.
pub open spec fn create_table_effect(before: Option<Table>) -> Option<Table> {
    match before {
        Some(t) => Some(t),
        None => Some(Map::empty()),
    }
}

/// The table that the replace statement leaves.
pub open spec fn replace_effect(before: Option<Table>, key: Seq<char>, cell: Cell) -> Option<Table> {
    match before {
        Some(t) => Some(after_insert(t, key, cell)),
        None => None,
    }
}

/// The table that the delete-all statement leaves.
pub open spec fn clear_effect(before: Option<Table>) -> Option<Table> {
    match before {
        Some(t) => Some(after_clear(t)),
        None => None,
    }
}

/// The integer that a query for a boolean answers: 1 for true, 0 for false.
pub open spec fn sql_bool(b: bool) -> int {
    if b {
        1
    } else {
        0
    }
}

/// Builds the statement that creates the table when it is missing.
pub fn create_table_sql() -> (sql: String)
    ensures
        sql@ == create_table_statement(),
{
    let mut sql = String::from_str("CREATE TABLE IF NOT EXISTS ");
    sql.append(TABLE);
    sql.append(" (");
    sql.append(KEY_COLUMN);
    sql.append(" varchar PRIMARY KEY UNIQUE NOT NULL, ");
    sql.append(VAL_COLUMN);
    sql.append(")");
    sql
}

/// Builds the statement that sets a key's value, replacing any earlier one.
pub fn replace_sql() -> (sql: String)
    ensures
        sql@ == replace_statement(),
{
    let mut sql = String::from_str("REPLACE INTO ");
    sql.append(TABLE);
    sql.append(" (");
    sql.append(KEY_COLUMN);
    sql.append(", ");
    sql.append(VAL_COLUMN);
    sql.append(") VALUES (?, ?)");
    sql
}

/// Builds the query that asks whether a key is present.
pub fn exists_sql() -> (sql: String)
    ensures
        sql@ == exists_statement(),
{
    let mut sql = String::from_str("SELECT EXISTS(SELECT 1 FROM ");
    sql.append(TABLE);
    sql.append(" WHERE ");
    sql.append(KEY_COLUMN);
    sql.append(" = ?)");
    sql
}

/// Builds the query that reads a key's value.
pub fn select_sql() -> (sql: String)
    ensures
        sql@ == select_statement(),
{
    let mut sql = String::from_str("SELECT ");
    sql.append(VAL_COLUMN);
    sql.append(" FROM ");
    sql.append(TABLE);
    sql.append(" WHERE ");
    sql.append(KEY_COLUMN);
    sql.append(" = ?");
    sql
}

/// Builds the statement that deletes a key's row and returns its value.
pub fn take_sql() -> (sql: String)
    ensures
        sql@ == take_statement(),
{
    let mut sql = String::from_str("DELETE FROM ");
    sql.append(TABLE);
    sql.append(" WHERE ");
    sql.append(KEY_COLUMN);
    sql.append(" = ? RETURNING ");
    sql.append(VAL_COLUMN);
    sql
}

/// Builds the statement that deletes every row.
pub fn clear_sql() -> (sql: String)
    ensures
        sql@ == clear_statement(),
{
    let mut sql = String::from_str("DELETE FROM ");
    sql.append(TABLE);
    sql
}

/// Builds the query that asks whether the table has no rows.
pub fn is_empty_sql() -> (sql: String)
    ensures
        sql@ == is_empty_statement(),
{
    let mut sql = String::from_str("SELECT NOT EXISTS(SELECT 1 FROM ");
    sql.append(TABLE);
    sql.append(")");
    sql
}

/// Builds the query that counts the rows.
pub fn count_sql() -> (sql: String)
    ensures
        sql@ == count_statement(),
{
    let mut sql = String::from_str("SELECT COUNT(*) FROM ");
    sql.append(TABLE);
    sql
}

} // verus!
