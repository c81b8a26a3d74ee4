use vstd::prelude::*;

use crate::command::{
    add_command, list_command, lookup_command, remove_command, update_command,
    update_is_complete, Command, Selector,
};
use crate::database::{execute, prepare, query_entries};
use crate::entry::Entry;
use crate::reply::{
    error_prefix, error_reply, ok_body, ok_reply, text_reply, Reply, ServiceError,
    STATUS_INTERNAL_ERROR, STATUS_OK,
};
use crate::rows::{
    collect_entries, first_license, found_license, is_blank, lemma_blank_rows_find_nothing,
};

verus! {

/// Whether `outcome` is a reply of status 200 with exactly `body`.
pub open spec fn answers<E>(outcome: Result<Reply, E>, body: Seq<char>) -> bool {
    outcome matches Ok(reply) && reply.status == STATUS_OK && reply.body@ == body
}

/// The reply to a lookup, from the rows of its key in storage order.
///
/// The body is the license of the first row that holds one, verbatim; a
/// license that is absent or empty counts as none. No row at all, or rows
/// that all lack a license, give the empty body. The status is 200 in each of
/// these cases: a key that is not there is no error. If a row that could not
/// be read comes before any license, its failure is returned instead of a
/// reply.
pub fn lookup_reply<E>(rows: Vec<Result<Entry, E>>) -> (out: Result<Reply, E>)
    ensures
        match out {
            Ok(reply) => reply.status == STATUS_OK && found_license(rows@) == Ok::<Seq<char>, E>(
                reply.body@,
            ),
            Err(failure) => found_license(rows@) == Err::<Seq<char>, E>(failure),
        },
        rows@.len() == 0 ==> answers(out, Seq::empty()),
        (forall|i: int| 0 <= i < rows@.len() ==> is_blank(#[trigger] rows@[i])) ==> answers(
            out,
            Seq::empty(),
        ),
        rows@.len() == 1 ==> match rows@[0] {
            Ok(entry) => match entry.license {
                Some(license) => answers(out, license@),
                None => answers(out, Seq::empty()),
            },
            Err(failure) => out == Err::<Reply, E>(failure),
        },
{
    proof {
        if forall|i: int| 0 <= i < rows@.len() ==> is_blank(#[trigger] rows@[i]) {
            lemma_blank_rows_find_nothing(rows@);
        }
        if rows@.len() == 1 {
            assert(rows@.drop_first().len() == 0);
            if let Ok(entry) = rows@[0] {
                if let Some(license) = entry.license {
                    if license@.len() == 0 {
                        assert(license@ =~= Seq::empty());
                    }
                }
            }
        }
    }
    match first_license(rows) {
        Ok(license) => Ok(text_reply(license)),
        Err(failure) => Err(failure),
    }
}

/// The reply to a write, from what the database said of it.
///
/// A statement that ran is acknowledged with status 200 and body `OK`,
/// whatever number of rows it changed: a remove or an update that found
/// nothing to act on is acknowledged like any other. A statement that failed
/// hands its failure on.
pub fn write_reply<E>(outcome: Result<usize, E>) -> (out: Result<Reply, E>)
    ensures
        match outcome {
            Ok(changed) => answers(out, ok_body()),
            Err(failure) => out == Err::<Reply, E>(failure),
        },
{
    match outcome {
        Ok(_) => Ok(ok_reply()),
        Err(failure) => Err(failure),
    }
}

/// What the client is sent for the outcome of a request: the reply itself, or
/// for an error the reply of status 500 whose body is the fixed prefix and
/// the error's description. Every failure takes this one shape.
pub fn into_reply(outcome: Result<Reply, ServiceError>) -> (out: Reply)
    ensures
        match outcome {
            Ok(reply) => out == reply,
            Err(error) => out.status == STATUS_INTERNAL_ERROR && out.body@ == error_prefix()
                + error.description(),
        },
{
    match outcome {
        Ok(reply) => reply,
        Err(error) => error_reply(&error),
    }
}

/// Whether `text` is the description that `failure` gives of itself: what
/// `to_string` makes of it.
pub open spec fn describes(failure: rusqlite::Error, text: String) -> bool {
    vstd::string::to_string_from_display_ensures::<rusqlite::Error>(&failure, text)
}

/// Whether `error` is a storage error that carries, word for word, the
/// description that a failure of the database gives of itself.
pub open spec fn reports_failure(error: ServiceError) -> bool {
    error matches ServiceError::Storage(text) && exists|failure: rusqlite::Error|
        describes(failure, text)
}

fn storage_error(error: &rusqlite::Error) -> (out: ServiceError)
    ensures
        out matches ServiceError::Storage(text) && describes(*error, text),
        reports_failure(out),
{
    let text = error.to_string();
    assert(exists|failure: rusqlite::Error| describes(failure, text)) by {
        assert(describes(*error, text));
    }
    ServiceError::Storage(text)
}

fn select(connection: &rusqlite::Connection, command: &Command) -> (out: Result<
    Vec<Result<Entry, rusqlite::Error>>,
    ServiceError,
>)
    ensures
        out matches Err(error) ==> reports_failure(error),
{
    let mut statement = match prepare(connection, command.sql) {
        Ok(statement) => statement,
        Err(error) => {
            return Err(storage_error(&error));
        },
    };
    match query_entries(&mut statement, &command.params) {
        Ok(rows) => Ok(rows),
        Err(error) => Err(storage_error(&error)),
    }
}

fn run(connection: &rusqlite::Connection, command: &Command) -> (out: Result<Reply, ServiceError>)
    ensures
        match out {
            Ok(reply) => answers(out, ok_body()),
            Err(error) => reports_failure(error),
        },
{
    match write_reply(execute(connection, command.sql, &command.params)) {
        Ok(reply) => Ok(reply),
        Err(error) => Err(storage_error(&error)),
    }
}

/// Lists every record of the table, in the order the database gives them.
///
/// The statement is that of [`list_command`]. The records are the rows as
/// [`collect_entries`] takes them; the only error is a failure of the
/// database, handed on with the description that the failure gives of itself.
pub fn get_list(connection: &rusqlite::Connection) -> (out: Result<Vec<Entry>, ServiceError>)
    ensures
        out matches Err(error) ==> reports_failure(error),
{
    let rows = select(connection, &list_command())?;
    match collect_entries(rows) {
        Ok(entries) => Ok(entries),
        Err(error) => Err(storage_error(&error)),
    }
}

/// Looks up the license of `key`.
///
/// The statement is that of [`lookup_command`]; the reply is what
/// [`lookup_reply`] makes of its rows. A reply has status 200, found or not;
/// the only error is a failure of the database.
pub fn get_key(connection: &rusqlite::Connection, key: String) -> (out: Result<
    Reply,
    ServiceError,
>)
    ensures
        match out {
            Ok(reply) => reply.status == STATUS_OK,
            Err(error) => reports_failure(error),
        },
{
    let rows = select(connection, &lookup_command(key))?;
    match lookup_reply(rows) {
        Ok(reply) => Ok(reply),
        Err(error) => Err(storage_error(&error)),
    }
}

/// Adds a record with the key and the license of `entry`.
///
/// The statement is that of [`add_command`]. Once it ran the reply is `OK`
/// with status 200; the only error is a failure of the database.
pub fn post_add(connection: &rusqlite::Connection, entry: Entry) -> (out: Result<
    Reply,
    ServiceError,
>)
    ensures
        match out {
            Ok(reply) => answers(out, ok_body()),
            Err(error) => reports_failure(error),
        },
{
    run(connection, &add_command(entry))
}

/// Removes the records that `entry` selects.
///
/// The statement is that of [`remove_command`]. Once it ran the reply is
/// `OK` with status 200, also where it removed nothing; the only error is a
/// failure of the database.
pub fn post_remove(connection: &rusqlite::Connection, selector: Selector, entry: Entry) -> (out:
    Result<Reply, ServiceError>)
    ensures
        match out {
            Ok(reply) => answers(out, ok_body()),
            Err(error) => reports_failure(error),
        },
{
    run(connection, &remove_command(selector, entry))
}

/// Sets the license of the records that `entry` selects.
///
/// An update by id that lacks the id or the license is rejected with
/// [`ServiceError::MissingField`] before the database is asked, and only
/// such an update is. Any other runs the statement of [`update_command`]:
/// once it ran the reply is `OK` with status 200, also where it changed
/// nothing, and the only error is a failure of the database.
pub fn post_update(connection: &rusqlite::Connection, selector: Selector, entry: Entry) -> (out:
    Result<Reply, ServiceError>)
    ensures
        match out {
            Ok(reply) => update_is_complete(selector, entry@) && answers(out, ok_body()),
            Err(error) => if update_is_complete(selector, entry@) {
                reports_failure(error)
            } else {
                error == ServiceError::MissingField
            },
        },
{
    let command = update_command(selector, entry)?;
    run(connection, &command)
}

} // verus!
