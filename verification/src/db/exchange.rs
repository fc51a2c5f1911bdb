//! One exchange with the store: a statement goes out, rows or a count or a
//! failure come back, all in the library's own types.

use vstd::prelude::*;
use crate::db::driver::{
    bound_arg, bound_value, cells_of, column_count, column_value, failure_of, run_batch, run_execute,
    run_query,
};
use crate::db::error::SqlFailure;
use crate::db::statement::Statement;
use crate::db::value::{row_data, SqlDatum, SqlParam, SqlValue};

verus! {

/// Whether `values` are the columns of a row, all of them and in order.
pub open spec fn is_whole_row(values: Seq<SqlValue>, cells: Seq<Option<SqlDatum>>) -> bool {
    &&& values.len() == cells.len()
    &&& forall|i: int| 0 <= i < cells.len() ==> #[trigger] cells[i] == Some(row_data(values)[i])
}

/// Reads the row column by column: every column in order where all can be
/// read, else the error of the first that cannot.
pub(crate) fn read_row(row: &rusqlite::Row<'_>) -> (values: Result<Vec<SqlValue>, rusqlite::Error>)
    ensures
        match values {
            Ok(read) => is_whole_row(read@, cells_of(*row)),
            Err(_) => exists|i: int| 0 <= i < cells_of(*row).len() && (#[trigger] cells_of(*row)[i]) is None,
        },
{
    let width = column_count(row);
    let mut values: Vec<SqlValue> = Vec::new();
    let mut i: usize = 0;
    while i < width
        invariant
            i <= width,
            width == cells_of(*row).len(),
            values.len() == i,
            forall|j: int| 0 <= j < i ==> #[trigger] cells_of(*row)[j] == Some(row_data(values@)[j]),
        decreases width - i,
    {
        match column_value(row, i) {
            Ok(value) => {
                let ghost before = values@;
                values.push(value);
                assert forall|j: int| 0 <= j < i + 1 implies #[trigger] cells_of(*row)[j] == Some(
                    row_data(values@)[j],
                ) by {
                    if j < i {
                        assert(row_data(values@)[j] == row_data(before)[j]);
                    }
                }
            },
            Err(error) => {
                assert(cells_of(*row)[i as int] is None);
                return Err(error);
            },
        }
        i += 1;
    }
    Ok(values)
}

/// The parameters as rusqlite binds them: one value for each, in the same
/// order, so that the first is bound to `?1`.
fn bind_all(params: &Vec<SqlParam>) -> (bound: Vec<rusqlite::types::Value>)
    ensures
        bound.len() == params.len(),
        forall|k: int| 0 <= k < bound.len() ==> bound_arg(#[trigger] bound@[k]) == params@[k]@,
{
    let mut bound: Vec<rusqlite::types::Value> = Vec::new();
    let mut i: usize = 0;
    while i < params.len()
        invariant
            i <= params.len(),
            bound.len() == i,
            forall|k: int| 0 <= k < i ==> bound_arg(#[trigger] bound@[k]) == params@[k]@,
        decreases params.len() - i,
    {
        bound.push(bound_value(&params[i]));
        i += 1;
    }
    bound
}

/// Asks the store a question: the rows of the answer, or its failure.
pub(crate) fn fetch(conn: &rusqlite::Connection, statement: &Statement) -> (answer: Result<Vec<Vec<SqlValue>>, SqlFailure>)
{
    let bound = bind_all(&statement.params);
    match run_query(conn, statement.sql.as_str(), &bound) {
        Ok(rows) => Ok(rows),
        Err(error) => Err(failure_of(&error)),
    }
}

/// Has the store change its rows: the number of rows changed, or its failure.
pub(crate) fn perform(conn: &rusqlite::Connection, statement: &Statement) -> (change: Result<usize, SqlFailure>)
{
    let bound = bind_all(&statement.params);
    match run_execute(conn, statement.sql.as_str(), &bound) {
        Ok(changed) => Ok(changed),
        Err(error) => Err(failure_of(&error)),
    }
}

/// Has the store run a batch of statements without parameters.
pub(crate) fn perform_batch(conn: &rusqlite::Connection, sql: &str) -> (done: Result<(), SqlFailure>)
{
    match run_batch(conn, sql) {
        Ok(()) => Ok(()),
        Err(error) => Err(failure_of(&error)),
    }
}

} // verus!
