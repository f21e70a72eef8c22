//! Named classifications for tickets, unique by name in the store.

use vstd::prelude::*;

use crate::db::Db;
use crate::errors::{DbError, DbResult};

verus! {

/// A named classification; the id stays unassigned until the row is stored.
#[derive(Debug)]
pub struct Category {
    pub id: i64,
    pub name: String,
}

impl Clone for Category {
    fn clone(&self) -> (r: Self)
        ensures
            r == *self,
    {
        Category { id: self.id, name: self.name.clone() }
    }
}

impl Category {
    /// A fresh, unsaved category.
    pub fn new(name: &str) -> (r: Self)
        ensures
            r.id == 0,
            r.name@ == name@,
    {
        Category { id: 0, name: name.to_owned() }
    }

    pub fn id(&self) -> (r: i64)
        ensures
            r == self.id,
    {
        self.id
    }

    pub fn name(&self) -> (r: &str)
        ensures
            r@ == self.name@,
    {
        self.name.as_str()
    }
}

/// Relies on rusqlite::Connection::prepare and Statement::insert: adds one
/// row to `categories` and returns its rowid.
#[verifier::external_body]
fn insert_category_row(conn: &rusqlite::Connection, name: &String) -> (r: Result<
    i64,
    rusqlite::Error,
>) {
    let mut stmt = conn.prepare("\nINSERT INTO categories VALUES (NULL, ?);\n")?;
    stmt.insert((name.as_str(),))
}

/// Relies on rusqlite::Connection::query_row: the single `categories` row
/// with the given name, as plain column values.
#[verifier::external_body]
fn select_category_by_name(conn: &rusqlite::Connection, name: &str) -> (r: Result<
    (i64, String),
    rusqlite::Error,
>) {
    conn.query_row("SELECT * FROM categories WHERE name = ?;", (name,), |row| {
        Ok((row.get(0)?, row.get(1)?))
    })
}

/// Relies on rusqlite::Connection::query_row: the single `categories` row
/// with the given id, as plain column values.
#[verifier::external_body]
fn select_category_by_id(conn: &rusqlite::Connection, id: i64) -> (r: Result<
    (i64, String),
    rusqlite::Error,
>) {
    conn.query_row("SELECT * FROM categories WHERE id = ?;", (id,), |row| {
        Ok((row.get(0)?, row.get(1)?))
    })
}

/// Relies on rusqlite::Connection::prepare and Statement::query_map: every
/// `categories` row, as plain column values.
#[verifier::external_body]
fn select_category_rows(conn: &rusqlite::Connection) -> (r: Result<
    Vec<(i64, String)>,
    rusqlite::Error,
>) {
    let mut stmt = conn.prepare("\nSELECT * FROM categories;\n")?;
    let rows = stmt.query_map((), |row| Ok((row.get(0)?, row.get(1)?)))?;
    rows.collect()
}

/// Relies on rusqlite::Connection::prepare and Statement::exists: whether at
/// least one `categories` row carries the given name.
#[verifier::external_body]
fn category_row_exists(conn: &rusqlite::Connection, name: &String) -> (r: Result<
    bool,
    rusqlite::Error,
>) {
    let mut stmt = conn.prepare("\nSELECT * FROM categories WHERE name = ?;\n")?;
    stmt.exists((name.as_str(),))
}

impl Category {
    /// Stores this category as a new row; on success the row's id becomes
    /// this category's id and the name stays as it was.
    pub fn save_to_db(&mut self, db: &Db) -> (r: DbResult<i64>)
        ensures
            r matches Ok(id) ==> *final(self) == (Category { id, ..*old(self) }),
            r is Err ==> *final(self) == *old(self),
            r matches Err(e) ==> e is SqliteError,
    {
        match insert_category_row(db.conn(), &self.name) {
            Ok(id) => {
                self.id = id;
                Ok(id)
            },
            Err(e) => Err(DbError::from(e)),
        }
    }

    /// Loads the stored category carrying `name`.
    pub fn get_category(db: &Db, name: &str) -> (r: DbResult<Category>)
        ensures
            r matches Err(e) ==> e is SqliteError,
    {
        match select_category_by_name(db.conn(), name) {
            Ok((id, name)) => Ok(Category { id, name }),
            Err(e) => Err(DbError::from(e)),
        }
    }

    /// Loads the stored category with the given id.
    pub fn get_by_id(db: &Db, id: i64) -> (r: DbResult<Category>)
        ensures
            r matches Err(e) ==> e is SqliteError,
    {
        match select_category_by_id(db.conn(), id) {
            Ok((id, name)) => Ok(Category { id, name }),
            Err(e) => Err(DbError::from(e)),
        }
    }

    /// Loads every stored category.
    pub fn get_categories(db: &Db) -> (r: DbResult<Vec<Category>>)
        ensures
            r matches Err(e) ==> e is SqliteError,
    {
        let rows = match select_category_rows(db.conn()) {
            Ok(rows) => rows,
            Err(e) => {
                return Err(DbError::from(e));
            },
        };
        let mut categories: Vec<Category> = Vec::new();
        let n = rows.len();
        let mut i: usize = 0;
        while i < n
            invariant
                n == rows@.len(),
                0 <= i <= n,
            decreases n - i,
        {
            let row = &rows[i];
            categories.push(Category { id: row.0, name: row.1.clone() });
            i += 1;
        }
        Ok(categories)
    }

    /// Whether a stored row already carries this category's name.
    pub fn exists_in_db(&self, db: &Db) -> (r: DbResult<bool>)
        ensures
            r matches Err(e) ==> e is SqliteError,
    {
        match category_row_exists(db.conn(), &self.name) {
            Ok(b) => Ok(b),
            Err(e) => Err(DbError::from(e)),
        }
    }
}

} // verus!
