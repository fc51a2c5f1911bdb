//! The calls into SQLite and into the UUID generator. Nothing here is
//! proved: each contract states what the called function is known to do, and
//! no more. What a call answers depends on the database, so most of them
//! promise nothing of their result.

use vstd::prelude::*;
use crate::db::error::{FailureData, SqlFailure};
use crate::db::exchange::read_row;
use crate::db::ident::is_random_uuid;
use crate::db::value::{SqlArg, SqlDatum, SqlParam, SqlValue};

verus! {

/// `rusqlite::Connection`: an open database. Opaque to the verifier.
#[verifier::external_type_specification]
#[verifier::external_body]
pub struct ExConnection(rusqlite::Connection);

/// `rusqlite::Error`: whatever rusqlite reports. Read only by [`failure_of`].
#[verifier::external_type_specification]
#[verifier::external_body]
pub struct ExError(rusqlite::Error);

/// `rusqlite::Row`: the current row of a running query. Read only by
/// [`column_count`] and [`column_value`].
#[verifier::external_type_specification]
#[verifier::external_body]
pub struct ExRow<'stmt>(rusqlite::Row<'stmt>);

/// `rusqlite::types::Value`: a parameter in the form that rusqlite binds.
/// Made only by [`bound_value`].
#[verifier::external_type_specification]
#[verifier::external_body]
pub struct ExValue(rusqlite::types::Value);

/// `rusqlite::Connection::open`: the connection to the database file at
/// `path`, which is created if it is missing, or the error of SQLite.
#[verifier::external_body]
pub(crate) fn open_database(path: &str) -> (opened: Result<rusqlite::Connection, rusqlite::Error>)
{
    rusqlite::Connection::open(path)
}

/// `rusqlite::Connection::execute_batch`: runs the statements of `sql` one
/// after the other and stops at the first that fails.
#[verifier::external_body]
pub(crate) fn run_batch(conn: &rusqlite::Connection, sql: &str) -> (done: Result<(), rusqlite::Error>)
{
    conn.execute_batch(sql)
}

/// `rusqlite::Connection::execute` with the parameters bound in order:
/// the number of rows that the statement changed, or the error.
#[verifier::external_body]
pub(crate) fn run_execute(
    conn: &rusqlite::Connection,
    sql: &str,
    params: &Vec<rusqlite::types::Value>,
) -> (changed: Result<usize, rusqlite::Error>)
{
    conn.execute(sql, rusqlite::params_from_iter(params.iter()))
}

/// `rusqlite::Connection::prepare` and `rusqlite::Statement::query_map` with
/// the parameters bound in order: every row of the answer, each read by
/// `read_row`, or the first error of preparing, binding, stepping or reading.
#[verifier::external_body]
pub(crate) fn run_query(
    conn: &rusqlite::Connection,
    sql: &str,
    params: &Vec<rusqlite::types::Value>,
) -> (rows: Result<Vec<Vec<SqlValue>>, rusqlite::Error>)
{
    let mut prepared = conn.prepare(sql)?;
    let rows = prepared.query_map(rusqlite::params_from_iter(params.iter()), |row| read_row(row))?;
    rows.collect()
}

/// `rusqlite::Connection::last_insert_rowid`: the row id of the most recent
/// successful insert on this connection.
#[verifier::external_body]
pub(crate) fn last_insert_rowid(conn: &rusqlite::Connection) -> (rowid: i64)
{
    conn.last_insert_rowid()
}

/// The columns of a row, first column first: for each the value it holds,
/// or `None` where it holds a text that is not UTF-8 and so cannot be read
/// as a `rusqlite::types::Value`. A row does not change while it is held.
pub uninterp spec fn cells_of(row: rusqlite::Row) -> Seq<Option<SqlDatum>>;

/// `rusqlite::Statement::column_count` of the statement behind the row: the
/// number of its columns.
#[verifier::external_body]
pub(crate) fn column_count(row: &rusqlite::Row<'_>) -> (count: usize)
    ensures
        count == cells_of(*row).len(),
{
    row.as_ref().column_count()
}

/// `rusqlite::Row::get` for the dynamically typed `Value`: the value in
/// column `index` of the row, in the library's own type, a real as the bit
/// pattern of its double. It fails where the row has no such column
/// (rusqlite's `InvalidColumnIndex`) and where the column cannot be read.
#[verifier::external_body]
pub(crate) fn column_value(row: &rusqlite::Row<'_>, index: usize) -> (value: Result<SqlValue, rusqlite::Error>)
    ensures
        match value {
            Ok(read) => index < cells_of(*row).len() && cells_of(*row)[index as int] == Some(read@),
            Err(_) => index >= cells_of(*row).len() || cells_of(*row)[index as int] is None,
        },
{
    Ok(match row.get::<usize, rusqlite::types::Value>(index)? {
        rusqlite::types::Value::Null => SqlValue::Null,
        rusqlite::types::Value::Integer(n) => SqlValue::Integer(n),
        rusqlite::types::Value::Real(r) => SqlValue::Real(r.to_bits()),
        rusqlite::types::Value::Text(s) => SqlValue::Text(s),
        rusqlite::types::Value::Blob(b) => SqlValue::Blob(b),
    })
}

/// The argument that a `rusqlite::types::Value` binds: its storage class and
/// its content.
pub uninterp spec fn bound_arg(value: rusqlite::types::Value) -> SqlArg;

/// The parameter as a `rusqlite::types::Value`: the variant of the same
/// storage class, with the same integer or the same text in it.
#[verifier::external_body]
pub(crate) fn bound_value(param: &SqlParam) -> (bound: rusqlite::types::Value)
    ensures
        bound_arg(bound) == param@,
{
    match param {
        SqlParam::Null => rusqlite::types::Value::Null,
        SqlParam::Integer(n) => rusqlite::types::Value::Integer(*n),
        SqlParam::Text(s) => rusqlite::types::Value::Text(s.clone()),
    }
}

/// What an error of rusqlite reports: the extended result code where the
/// error is a `rusqlite::Error::SqliteFailure`, none otherwise, and the text
/// that the error displays.
pub uninterp spec fn failure_data(error: rusqlite::Error) -> FailureData;

/// The error in the library's own type: its code, read from the variant, and
/// its message, which is `to_string` of the error.
#[verifier::external_body]
pub(crate) fn failure_of(error: &rusqlite::Error) -> (failure: SqlFailure)
    ensures
        failure@ == failure_data(*error),
{
    let code = match error {
        rusqlite::Error::SqliteFailure(cause, _) => Some(cause.extended_code),
        _ => None,
    };
    SqlFailure { code, message: error.to_string() }
}

/// `uuid::Uuid::new_v4` in its display form: a random UUID, hyphenated and
/// in lower case. Which one is a matter of chance.
#[verifier::external_body]
pub(crate) fn fresh_uuid() -> (text: String)
    ensures
        is_random_uuid(text@),
{
    uuid::Uuid::new_v4().to_string()
}

} // verus!
