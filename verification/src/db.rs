//! The handle to the sqlite store and the schema it is opened with.
//!
//! The store itself is an external collaborator: this crate only states the
//! read/write contract it needs, and every call into the sqlite bindings
//! stands behind a small trusted wrapper.

use vstd::prelude::*;

use crate::errors::{DbError, DbResult};

verus! {

// The sqlite connection handle; a value of it is opaque to this crate.
#[verifier::external_type_specification]
#[verifier::external_body]
pub struct ExConnection(rusqlite::Connection);

/// An open connection to the tracker's database, with the schema in place.
pub struct Db {
    conn: rusqlite::Connection,
}

/// Relies on rusqlite::Connection::open_in_memory: opens a fresh, empty
/// in-process database.
#[verifier::external_body]
fn open_memory_conn() -> (r: Result<rusqlite::Connection, rusqlite::Error>) {
    rusqlite::Connection::open_in_memory()
}

/// Relies on rusqlite::Connection::open: creates or opens the database file
/// at `path`.
#[verifier::external_body]
fn open_path_conn(path: &str) -> (r: Result<rusqlite::Connection, rusqlite::Error>) {
    rusqlite::Connection::open(path)
}

/// Relies on rusqlite::Connection::execute_batch: runs the semicolon-joined
/// statements of `sql` one after the other.
#[verifier::external_body]
fn run_batch(conn: &rusqlite::Connection, sql: &str) -> (r: Result<(), rusqlite::Error>) {
    conn.execute_batch(sql)
}

impl Db {
    /// Brings the schema up on a fresh connection and hands the store back.
    fn init(conn: rusqlite::Connection) -> (r: DbResult<Db>)
        ensures
            r matches Err(e) ==> e is SqliteError,
    {
        let batch = run_batch(
            &conn,
            "\nBEGIN;\nCREATE TABLE IF NOT EXISTS users (\n    id INTEGER PRIMARY KEY ASC,\n    name TEXT NOT NULL UNIQUE,\n    pass TEXT NOT NULL,\n    pass_hash TEXT NOT NULL\n);\nCREATE TABLE IF NOT EXISTS categories (\n    id INTEGER PRIMARY KEY ASC,\n    name TEXT NOT NULL UNIQUE\n);\nCREATE TABLE IF NOT EXISTS metadata (\n    id INTEGER PRIMARY KEY ASC,\n    c_time INTEGER NOT NULL,\n    m_time INTEGER NOT NULL,\n    author_id NOT NULL REFERENCES users(id) ON UPDATE CASCADE ON DELETE CASCADE,\n    category_id NOT NULL REFERENCES categories(id) ON UPDATE CASCADE ON DELETE CASCADE,\n    status INTEGER NOT NULL,\n    date_expired INTEGER NOT NULL\n);\nCREATE TABLE IF NOT EXISTS docs (\n    id INTEGER PRIMARY KEY ASC,\n    name TEXT NOT NULL,\n    metadata NOT NULL REFERENCES metadata(id) ON UPDATE CASCADE ON DELETE CASCADE,\n    permission INTEGER NOT NULL,\n    data BLOB,\n    responsible INTEGER\n);\nCREATE TABLE IF NOT EXISTS comments (\n    id INTEGER PRIMARY KEY ASC,\n    author_id NOT NULL REFERENCES users(id) ON UPDATE CASCADE ON DELETE CASCADE,\n    text TEXT NOT NULL,\n    c_time INTEGER NOT NULL,\n    doc_id NOT NULL REFERENCES docs(id) ON UPDATE CASCADE ON DELETE CASCADE\n);\nCOMMIT;",
        );
        match batch {
            Ok(()) => Ok(Db { conn }),
            Err(e) => Err(DbError::SqliteError(e)),
        }
    }

    /// Opens (creating it if needed) the database file at `path` and brings
    /// the schema up.
    pub fn open(path: &str) -> (r: DbResult<Db>)
        ensures
            r matches Err(e) ==> e is SqliteError,
    {
        match open_path_conn(path) {
            Ok(conn) => Db::init(conn),
            Err(e) => Err(DbError::SqliteError(e)),
        }
    }

    /// Opens a fresh, empty in-memory store and brings the schema up.
    pub fn open_in_memory() -> (r: DbResult<Db>)
        ensures
            r matches Err(e) ==> e is SqliteError,
    {
        match open_memory_conn() {
            Ok(conn) => Db::init(conn),
            Err(e) => Err(DbError::SqliteError(e)),
        }
    }

    pub fn conn(&self) -> &rusqlite::Connection {
        &self.conn
    }
}

} // verus!
