use vstd::prelude::*;

use crate::decimal::{decimal, decimal_text};
use crate::entry::{Entry, EntryView};
use crate::reply::ServiceError;

verus! {

/// Reads every record.
pub const LIST_SQL: &'static str = "SELECT id, key, license FROM licenses";

/// Reads the records of one key.
pub const LOOKUP_SQL: &'static str = "SELECT id, key, license FROM licenses WHERE key = ?";

/// Inserts one record; the table assigns its id.
pub const ADD_SQL: &'static str = "INSERT INTO licenses (key, license) VALUES (?, ?)";

/// Deletes the records of one key.
pub const REMOVE_BY_KEY_SQL: &'static str = "DELETE FROM licenses WHERE key = ?";

/// Deletes the record of one id.
pub const REMOVE_BY_ID_SQL: &'static str = "DELETE FROM licenses WHERE id = ?";

/// Sets the license of the records of one key.
pub const UPDATE_BY_KEY_SQL: &'static str = "UPDATE licenses SET license = ? WHERE key = ?";

/// Sets the license of the record of one id.
pub const UPDATE_BY_ID_SQL: &'static str = "UPDATE licenses SET license = ? WHERE id = ?";

/// The field by which remove and update pick the records they act on.
///
/// A service uses one selector for all its requests. By key, every record
/// with the request's key is picked; by id, the one record with the request's
/// id. Only an update by id insists on its fields, see [`update_command`].
#[derive(Debug, Clone, Copy, PartialEq, Eq)]
pub enum Selector {
    Key,
    Id,
}

/// One SQL statement with the values bound to its placeholders, in order.
/// An absent value is bound as NULL, a present one as text.
#[derive(Debug)]
pub struct Command {
    pub sql: &'static str,
    pub params: Vec<Option<String>>,
}

/// The mathematical value of a [`Command`].
pub ghost struct CommandView {
    pub sql: Seq<char>,
    pub params: Seq<Option<Seq<char>>>,
}

impl View for Command {
    type V = CommandView;

    open spec fn view(&self) -> CommandView {
        CommandView { sql: self.sql@, params: self.params.deep_view() }
    }
}

/// The text bound for an id: its base-ten digits, or nothing.
pub open spec fn id_text(id: Option<i32>) -> Option<Seq<char>> {
    match id {
        Some(n) => Some(decimal(n as int)),
        None => None,
    }
}

/// The statement that removes what `entry` selects.
pub open spec fn removal(selector: Selector, entry: EntryView) -> CommandView {
    match selector {
        Selector::Key => CommandView { sql: REMOVE_BY_KEY_SQL@, params: seq![entry.key] },
        Selector::Id => CommandView { sql: REMOVE_BY_ID_SQL@, params: seq![id_text(entry.id)] },
    }
}

/// Whether an update names all that its selector asks for: by id, both the id
/// and the license; by key, nothing is asked.
pub open spec fn update_is_complete(selector: Selector, entry: EntryView) -> bool {
    selector is Key || (entry.id is Some && entry.license is Some)
}

/// The statement that gives the license of `entry` to what `entry` selects.
pub open spec fn update(selector: Selector, entry: EntryView) -> CommandView {
    match selector {
        Selector::Key => CommandView {
            sql: UPDATE_BY_KEY_SQL@,
            params: seq![entry.license, entry.key],
        },
        Selector::Id => CommandView {
            sql: UPDATE_BY_ID_SQL@,
            params: seq![entry.license, id_text(entry.id)],
        },
    }
}

fn id_param(id: Option<i32>) -> (out: Option<String>)
    ensures
        out.deep_view() == id_text(id),
{
    match id {
        Some(n) => Some(decimal_text(n)),
        None => None,
    }
}

fn one_param(first: Option<String>) -> (out: Vec<Option<String>>)
    ensures
        out.deep_view() == seq![first.deep_view()],
{
    let mut out: Vec<Option<String>> = Vec::new();
    out.push(first);
    assert(out.deep_view() =~= seq![first.deep_view()]);
    out
}

fn two_params(first: Option<String>, second: Option<String>) -> (out: Vec<Option<String>>)
    ensures
        out.deep_view() == seq![first.deep_view(), second.deep_view()],
{
    let mut out: Vec<Option<String>> = Vec::new();
    out.push(first);
    out.push(second);
    assert(out.deep_view() =~= seq![first.deep_view(), second.deep_view()]);
    out
}

/// The statement that reads every record: no value is bound.
pub fn list_command() -> (out: Command)
    ensures
        out@ == (CommandView { sql: LIST_SQL@, params: Seq::empty() }),
{
    let params: Vec<Option<String>> = Vec::new();
    assert(params.deep_view() =~= Seq::empty());
    Command { sql: LIST_SQL, params }
}

/// The statement that reads the records whose key is exactly `key`.
pub fn lookup_command(key: String) -> (out: Command)
    ensures
        out@ == (CommandView { sql: LOOKUP_SQL@, params: seq![Some(key@)] }),
{
    Command { sql: LOOKUP_SQL, params: one_param(Some(key)) }
}

/// The statement that inserts a record with the key and the license of
/// `entry`, each NULL where absent. The id of `entry` is not read: the table
/// assigns one.
pub fn add_command(entry: Entry) -> (out: Command)
    ensures
        out@ == (CommandView { sql: ADD_SQL@, params: seq![entry@.key, entry@.license] }),
{
    Command { sql: ADD_SQL, params: two_params(entry.key, entry.license) }
}

/// The statement that removes the records that `entry` selects: by key, those
/// whose key is the key of `entry`; by id, the one whose id is the id of
/// `entry`. An absent key or id is bound as NULL, which no record equals.
pub fn remove_command(selector: Selector, entry: Entry) -> (out: Command)
    ensures
        out@ == removal(selector, entry@),
{
    match selector {
        Selector::Key => Command { sql: REMOVE_BY_KEY_SQL, params: one_param(entry.key) },
        Selector::Id => Command { sql: REMOVE_BY_ID_SQL, params: one_param(id_param(entry.id)) },
    }
}

/// The statement that sets the license of the records that `entry` selects to
/// the license of `entry`.
///
/// By id, the request must carry both an id and a license; one that lacks
/// either is rejected with [`ServiceError::MissingField`] and no statement is
/// made. By key, nothing is rejected: an absent license clears the license of
/// the selected records, and an absent key selects none.
pub fn update_command(selector: Selector, entry: Entry) -> (out: Result<Command, ServiceError>)
    ensures
        match out {
            Ok(command) => update_is_complete(selector, entry@) && command@ == update(
                selector,
                entry@,
            ),
            Err(error) => !update_is_complete(selector, entry@) && error
                == ServiceError::MissingField,
        },
{
    match selector {
        Selector::Key => Ok(
            Command { sql: UPDATE_BY_KEY_SQL, params: two_params(entry.license, entry.key) },
        ),
        Selector::Id => {
            if entry.id.is_none() || entry.license.is_none() {
                return Err(ServiceError::MissingField);
            }
            Ok(
                Command {
                    sql: UPDATE_BY_ID_SQL,
                    params: two_params(entry.license, id_param(entry.id)),
                },
            )
        },
    }
}

} // verus!
