//! A key/license lookup service over one SQLite table.
//!
//! The table `licenses` holds records of an integer `id`, a text `key` and a
//! text `license`. Five operations act on it: list every record, look a
//! license up by key, add a record, remove records and update records. Each
//! operation is one SQL statement on an open [`rusqlite::Connection`]; what
//! the statement is, which values are bound to it, and what reply follows from
//! each outcome of the database is decided here and verified.
//!
//! Nothing here opens sockets or files. A caller owns the connection, decides
//! how requests reach the operations, and turns a [`Reply`] into whatever its
//! transport wants.

pub mod command;
pub mod database;
pub mod decimal;
pub mod entry;
pub mod reply;
pub mod rows;
pub mod service;

pub use command::{
    add_command, list_command, lookup_command, remove_command, update_command, Command, Selector,
};
pub use decimal::decimal_text;
pub use entry::Entry;
pub use reply::{error_reply, ok_reply, text_reply, Reply, ServiceError};
pub use rows::{collect_entries, first_license};
pub use service::{
    get_key, get_list, into_reply, lookup_reply, post_add, post_remove, post_update, write_reply,
};
