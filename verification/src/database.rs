use vstd::prelude::*;

use crate::entry::Entry;

verus! {

/// `rusqlite::Connection`, an open SQLite database. Nothing of its inside is
/// known here: what its table holds is the database's affair.
#[verifier::external_type_specification]
#[verifier::external_body]
pub struct ExConnection(rusqlite::Connection);

/// `rusqlite::Statement`, a statement that a connection has compiled and that
/// lives no longer than the connection.
#[verifier::external_type_specification]
#[verifier::external_body]
pub struct ExStatement<'conn>(rusqlite::Statement<'conn>);

/// `rusqlite::Error`, whatever the database or the binding reports as failed.
#[verifier::external_type_specification]
#[verifier::external_body]
pub struct ExError(rusqlite::Error);

/// Calls `rusqlite::Connection::prepare`, which compiles `sql` on the
/// connection. Nothing is claimed of the outcome: whether the text compiles
/// depends on the schema that the database holds.
#[verifier::external_body]
pub(crate) fn prepare<'conn>(connection: &'conn rusqlite::Connection, sql: &str) -> (out: Result<
    rusqlite::Statement<'conn>,
    rusqlite::Error,
>) {
    connection.prepare(sql)
}

/// Calls `rusqlite::Statement::query_map` with `params` bound in order, and
/// gathers what its iterator yields: per row either an [`Entry`] of the
/// columns 0, 1 and 2, or the failure to step to that row or to read a column
/// as the field's type. The outer failure is that of binding. Nothing is
/// claimed of the rows: they are what the database holds at the time.
#[verifier::external_body]
pub(crate) fn query_entries(
    statement: &mut rusqlite::Statement<'_>,
    params: &Vec<Option<String>>,
) -> (out: Result<Vec<Result<Entry, rusqlite::Error>>, rusqlite::Error>) {
    let rows = statement.query_map(
        rusqlite::params_from_iter(params.iter()),
        |row| Ok(Entry { id: row.get(0)?, key: row.get(1)?, license: row.get(2)? }),
    )?;
    Ok(rows.collect())
}

/// Calls `rusqlite::Connection::execute`, which compiles `sql`, binds
/// `params` in order and runs the statement once; on success it gives the
/// number of rows that the statement changed. Nothing is claimed of that
/// number nor of the failure: both depend on what the database holds.
#[verifier::external_body]
pub(crate) fn execute(
    connection: &rusqlite::Connection,
    sql: &str,
    params: &Vec<Option<String>>,
) -> (out: Result<usize, rusqlite::Error>) {
    connection.execute(sql, rusqlite::params_from_iter(params.iter()))
}

} // verus!
