//! The calls into `rusqlite` that the store makes, and what each of them
//! is trusted to do.
//!
//! Two names describe a connection. `table_rows` is what the store's table
//! holds as seen through the connection (`None` while the table does not
//! exist). `connection_is_private` says that no other connection reaches the
//! same database, so that nothing but calls on this connection changes the
//! table; an in-memory database is private. A file database may be opened
//! by other connections and processes at any moment, so nothing is claimed
//! of its rows: every clause about the table is guarded by privacy.

use std::path::Path;
use std::time::Duration;

use vstd::prelude::*;

use crate::model::{Cell, SqlArg, Table, after_remove, lookup, size};
use crate::statements::{
    clear_effect, clear_statement, count_statement, create_table_effect,
    binds_execute, binds_integer_query, create_table_statement, exists_statement,
    is_empty_statement, is_store_statement, replace_effect,
    replace_statement, select_statement, settles, sql_bool, take_statement,
};

verus! {

/// `rusqlite::Connection`, a connection to a SQLite database, held opaque.
#[verifier::external_type_specification]
#[verifier::external_body]
pub struct ExConnection(rusqlite::Connection);

/// `rusqlite::Error`, the error of a SQLite call, held opaque.
#[verifier::external_type_specification]
#[verifier::external_body]
pub struct ExError(rusqlite::Error);

/// `std::path::Path`, the path of a database file, held opaque.
#[verifier::external_type_specification]
#[verifier::external_body]
pub struct ExPath(std::path::Path);

/// The rows of the store's table as `conn` sees them, key to value cell;
/// `None` while the table does not exist.
pub uninterp spec fn table_rows(conn: rusqlite::Connection) -> Option<Table>;

/// Whether the database behind `conn` is reachable through `conn` alone.
pub uninterp spec fn connection_is_private(conn: rusqlite::Connection) -> bool;

/// Whether `conn` was opened on the database file at `path`.
pub uninterp spec fn opened_on(conn: rusqlite::Connection, path: &Path) -> bool;

/// How long, in milliseconds, `conn` waits for a lock held by another
/// connection before a statement fails.
pub uninterp spec fn busy_timeout_ms(conn: rusqlite::Connection) -> int;

/// `after` is open on the same file as `before`, with the same busy
/// timeout.
pub open spec fn same_settings(before: rusqlite::Connection, after: rusqlite::Connection) -> bool {
    &&& busy_timeout_ms(after) == busy_timeout_ms(before)
    &&& forall|path: &Path| #[trigger] opened_on(after, path) == opened_on(before, path)
}

/// `rusqlite::Connection::open_in_memory`: opens a new, private, in-memory
/// database, which holds no table yet.
#[verifier::external_body]
pub(crate) fn open_in_memory() -> (r: Result<rusqlite::Connection, rusqlite::Error>)
    ensures
        r matches Ok(conn) ==> connection_is_private(conn) && table_rows(conn) is None,
{
    rusqlite::Connection::open_in_memory()
}

/// `rusqlite::Connection::open`: opens (creating it if needed) the database
/// file at `path`. The connection is open on that file. The file may hold
/// anything and may be shared: the claims on its table are only that a
/// table holds finitely many rows and that a private database (a path
/// such as `:memory:` names a new temporary one) holds no table yet.
#[verifier::external_body]
pub(crate) fn open_file(path: &Path) -> (r: Result<rusqlite::Connection, rusqlite::Error>)
    ensures
        r matches Ok(conn) ==> {
            &&& opened_on(conn, path)
            &&& table_rows(conn) is Some ==> table_rows(conn)->0.dom().finite()
            &&& connection_is_private(conn) ==> table_rows(conn) is None
        },
{
    rusqlite::Connection::open(path)
}

/// `rusqlite::Connection::busy_timeout` with a timeout of `secs` seconds.
/// It panics when the timeout in milliseconds exceeds `i32::MAX`, which
/// `requires` rules out. When it succeeds the connection waits `secs`
/// seconds for a lock. It changes no data, and the connection stays open
/// on the same file.
#[verifier::external_body]
pub(crate) fn set_busy_timeout(conn: &mut rusqlite::Connection, secs: u64) -> (r: Result<
    (),
    rusqlite::Error,
>)
    requires
        secs * 1000 <= i32::MAX,
    ensures
        connection_is_private(*final(conn)) == connection_is_private(*old(conn)),
        connection_is_private(*old(conn)) ==> table_rows(*final(conn)) == table_rows(*old(conn)),
        forall|path: &Path| #[trigger] opened_on(*final(conn), path) == opened_on(*old(conn), path),
        r is Ok ==> busy_timeout_ms(*final(conn)) == secs * 1000,
{
    conn.busy_timeout(Duration::from_secs(secs))
}

/// `rusqlite::Connection::execute` of `sql` with `args` bound in order;
/// `sql` is one of the store's statements and `args` binds exactly its
/// parameters.
/// On a private connection, for each statement the store sends: the create
/// statement makes an empty table if none exists, the replace statement
/// sets the key `args[0]` to the cell `args[1]`, and the delete-all
/// statement empties the table; a failed statement changes the table at
/// most as the statement would have. None of these statements changes the
/// busy timeout or the file the connection is open on.
#[verifier::external_body]
pub(crate) fn execute(conn: &mut rusqlite::Connection, sql: &str, args: &[SqlArg]) -> (r: Result<
    usize,
    rusqlite::Error,
>)
    requires
        binds_execute(sql@, args@),
    ensures
        connection_is_private(*final(conn)) == connection_is_private(*old(conn)),
        is_store_statement(sql@) ==> same_settings(*old(conn), *final(conn)),
        connection_is_private(*old(conn)) && sql@ == create_table_statement() && args@.len() == 0
            ==> settles(
            table_rows(*old(conn)),
            table_rows(*final(conn)),
            r is Ok,
            create_table_effect(table_rows(*old(conn))),
        ),
        connection_is_private(*old(conn)) && sql@ == replace_statement() && args@.len() == 2
            && args@[0] is Text ==> settles(
            table_rows(*old(conn)),
            table_rows(*final(conn)),
            r is Ok,
            replace_effect(table_rows(*old(conn)), (args@[0]->Text_0)@, args@[1].cell()),
        ),
        connection_is_private(*old(conn)) && sql@ == clear_statement() && args@.len() == 0
            ==> settles(
            table_rows(*old(conn)),
            table_rows(*final(conn)),
            r is Ok,
            clear_effect(table_rows(*old(conn))),
        ),
{
    let params: Vec<&dyn rusqlite::ToSql> = args.iter().map(|a| match a {
        SqlArg::Text(s) => s as &dyn rusqlite::ToSql,
        SqlArg::Blob(b) => b as &dyn rusqlite::ToSql,
    }).collect();
    conn.execute(sql, params.as_slice())
}

/// `rusqlite::Connection::query_row` of `sql` with `args` bound, reading
/// column 0 of the first row as an `i64`. `sql` is one of the store's
/// read-only queries, so the call changes nothing, and `args` binds
/// exactly its parameters. An `EXISTS` query answers 1 or 0
/// and a count is never negative; on a private connection whose table
/// exists they answer for its rows.
#[verifier::external_body]
pub(crate) fn query_integer(conn: &rusqlite::Connection, sql: &str, args: &[SqlArg]) -> (r: Result<
    i64,
    rusqlite::Error,
>)
    requires
        binds_integer_query(sql@, args@),
    ensures
        (sql@ == exists_statement() || sql@ == is_empty_statement()) && r is Ok
            ==> r->Ok_0 == 0 || r->Ok_0 == 1,
        sql@ == count_statement() && r is Ok ==> r->Ok_0 >= 0,
        connection_is_private(*conn) && r is Ok && table_rows(*conn) is Some ==> {
            let t = table_rows(*conn)->0;
            &&& sql@ == exists_statement() && args@.len() == 1 && args@[0] is Text
                ==> r->Ok_0 == sql_bool(t.contains_key((args@[0]->Text_0)@))
            &&& sql@ == is_empty_statement() && args@.len() == 0 ==> r->Ok_0 == sql_bool(
                size(t) == 0,
            )
            &&& sql@ == count_statement() && args@.len() == 0 ==> r->Ok_0 == size(t)
        },
{
    let params: Vec<&dyn rusqlite::ToSql> = args.iter().map(|a| match a {
        SqlArg::Text(s) => s as &dyn rusqlite::ToSql,
        SqlArg::Blob(b) => b as &dyn rusqlite::ToSql,
    }).collect();
    conn.query_row(sql, params.as_slice(), |row| row.get(0))
}

/// What a query for the value of `key` may answer, for a table that holds
/// `t`: no row when the key is absent, otherwise the key's cell; an error
/// is always possible.
pub open spec fn answers_lookup(t: Table, key: Seq<char>, answer: Option<Option<Cell>>) -> bool {
    match answer {
        Some(found) => found == lookup(t, key),
        None => true,
    }
}

/// `rusqlite::Connection::query_row` of `sql` with `key` bound, reading
/// column 0 of the first row as a `String`, followed by
/// `rusqlite::OptionalExtension::optional`, which turns "no row" into
/// `Ok(None)`. `sql` is the store's select query, which changes nothing. Reading succeeds only for a text cell. On a private
/// connection the select statement answers with the key's cell.
#[verifier::external_body]
pub(crate) fn select_text(conn: &rusqlite::Connection, sql: &str, key: &str) -> (r: Result<
    Option<String>,
    rusqlite::Error,
>)
    requires
        sql@ == select_statement(),
    ensures
        connection_is_private(*conn) && table_rows(*conn) is Some
            ==> answers_lookup(table_rows(*conn)->0, key@, text_answer(r)),
{
    rusqlite::OptionalExtension::optional(conn.query_row(sql, [key], |row| row.get(0)))
}

/// As `select_text`, reading the cell as a `Vec<u8>`, which succeeds only
/// for a blob cell.
#[verifier::external_body]
pub(crate) fn select_blob(conn: &rusqlite::Connection, sql: &str, key: &str) -> (r: Result<
    Option<Vec<u8>>,
    rusqlite::Error,
>)
    requires
        sql@ == select_statement(),
    ensures
        connection_is_private(*conn) && table_rows(*conn) is Some
            ==> answers_lookup(table_rows(*conn)->0, key@, blob_answer(r)),
{
    rusqlite::OptionalExtension::optional(conn.query_row(sql, [key], |row| row.get(0)))
}

/// `rusqlite::Connection::query_row` of the delete-returning statement
/// `sql` with `key` bound, reading the returned cell as a `String`, followed by
/// `rusqlite::OptionalExtension::optional`. On a private connection the row
/// of `key` is gone once the statement has run; when the returned cell
/// cannot be read, or the statement fails, the row may or may not be gone.
/// The statement changes neither the busy timeout nor the file the
/// connection is open on.
#[verifier::external_body]
pub(crate) fn take_text(conn: &mut rusqlite::Connection, sql: &str, key: &str) -> (r: Result<
    Option<String>,
    rusqlite::Error,
>)
    requires
        sql@ == take_statement(),
    ensures
        connection_is_private(*final(conn)) == connection_is_private(*old(conn)),
        sql@ == take_statement() ==> same_settings(*old(conn), *final(conn)),
        connection_is_private(*old(conn)) && sql@ == take_statement() && table_rows(*old(conn)) is Some
            ==> takes(table_rows(*old(conn))->0, key@, text_answer(r), table_rows(*final(conn))),
{
    rusqlite::OptionalExtension::optional(conn.query_row(sql, [key], |row| row.get(0)))
}

/// As `take_text`, reading the returned cell as a `Vec<u8>`.
#[verifier::external_body]
pub(crate) fn take_blob(conn: &mut rusqlite::Connection, sql: &str, key: &str) -> (r: Result<
    Option<Vec<u8>>,
    rusqlite::Error,
>)
    requires
        sql@ == take_statement(),
    ensures
        connection_is_private(*final(conn)) == connection_is_private(*old(conn)),
        sql@ == take_statement() ==> same_settings(*old(conn), *final(conn)),
        connection_is_private(*old(conn)) && sql@ == take_statement() && table_rows(*old(conn)) is Some
            ==> takes(table_rows(*old(conn))->0, key@, blob_answer(r), table_rows(*final(conn))),
{
    rusqlite::OptionalExtension::optional(conn.query_row(sql, [key], |row| row.get(0)))
}

/// What a delete-returning of `key` on a table holding `t` may answer and
/// leave: a successful answer is the key's cell and the row is gone; after
/// an error the row may or may not be gone.
pub open spec fn takes(t: Table, key: Seq<char>, answer: Option<Option<Cell>>, after: Option<Table>) -> bool {
    match answer {
        Some(found) => found == lookup(t, key) && after == Some(after_remove(t, key)),
        None => after == Some(t) || after == Some(after_remove(t, key)),
    }
}

/// The cell that a successful text read saw, if the read succeeded.
pub open spec fn text_answer(r: Result<Option<String>, rusqlite::Error>) -> Option<Option<Cell>> {
    match r {
        Ok(Some(s)) => Some(Some(Cell::Text(s@))),
        Ok(None) => Some(None),
        Err(_) => None,
    }
}

/// The cell that a successful blob read saw, if the read succeeded.
pub open spec fn blob_answer(r: Result<Option<Vec<u8>>, rusqlite::Error>) -> Option<Option<Cell>> {
    match r {
        Ok(Some(b)) => Some(Some(Cell::Blob(b@))),
        Ok(None) => Some(None),
        Err(_) => None,
    }
}

} // verus!
