//! The authorship/category/status/timestamp envelope of a document.
//!
//! The envelope owns the audit-trail rule: the creation time is fixed at
//! construction, the modification time never falls below it, and every
//! setter bumps the modification time.  The ticket status is a three-state
//! machine with no transition restrictions and a lenient numeric decoding.

use vstd::prelude::*;

use crate::category::Category;
use crate::clock::{now_ts, timestamp_of_ymd, ts_of_ymd, valid_ymd};
use crate::db::Db;
use crate::errors::{DbError, DbResult};
use crate::user::User;

verus! {

/// Ticket progress.  Any status may move to any other.
#[derive(Debug, PartialEq, Eq, Structural, Copy, Clone)]
pub enum Status {
    Beginning,
    InProgress,
    Complete,
}

/// The numeric encoding of a status.
pub open spec fn status_num(s: Status) -> int {
    match s {
        Status::Beginning => 0,
        Status::InProgress => 1,
        Status::Complete => 2,
    }
}

/// The status read back from a number.  Anything but 1 or 2 decodes to
/// `Beginning`: out-of-range values fall back silently rather than fail.
pub open spec fn status_of_num(n: int) -> Status {
    if n == 1 {
        Status::InProgress
    } else if n == 2 {
        Status::Complete
    } else {
        Status::Beginning
    }
}

impl Status {
    pub fn get_num(&self) -> (r: i64)
        ensures
            r == status_num(*self),
    {
        match *self {
            Status::Beginning => 0,
            Status::InProgress => 1,
            Status::Complete => 2,
        }
    }

    /// Decodes a stored status number, falling back to `Beginning` for any
    /// value outside `{0, 1, 2}`.
    pub fn from_num(num: i64) -> (r: Status)
        ensures
            r == status_of_num(num as int),
    {
        match num {
            0 => Status::Beginning,
            1 => Status::InProgress,
            2 => Status::Complete,
            _ => Status::Beginning,
        }
    }
}

/// Decoding inverts encoding on every status value.
pub proof fn lemma_status_round_trip(s: Status)
    ensures
        status_of_num(status_num(s)) == s,
{
}

/// The envelope of one document.
#[derive(Debug)]
pub struct Metadata {
    pub id: i64,
    pub c_time: i64,
    pub m_time: i64,
    pub author: User,
    pub category: Category,
    pub status: Status,
    pub date_expired: i64,
}

impl Clone for Metadata {
    fn clone(&self) -> (r: Self)
        ensures
            r == *self,
    {
        Metadata {
            id: self.id,
            c_time: self.c_time,
            m_time: self.m_time,
            author: self.author.clone(),
            category: self.category.clone(),
            status: self.status,
            date_expired: self.date_expired,
        }
    }
}

impl Metadata {
    /// The audit-trail invariant: the modification time never falls below
    /// the creation time.
    pub open spec fn wf(&self) -> bool {
        self.m_time >= self.c_time
    }

    /// A fresh, unsaved envelope: created and modified now, status at
    /// `Beginning`, expiring at midnight of the given calendar date.
    pub fn new(author: &User, category: Category, date_expired: (u32, u32, u32)) -> (r: Self)
        requires
            valid_ymd(date_expired.0 as int, date_expired.1 as int, date_expired.2 as int),
        ensures
            r.id == 0,
            r.c_time == r.m_time,
            r.author == *author,
            r.category == category,
            r.status == Status::Beginning,
            r.date_expired == ts_of_ymd(
                date_expired.0 as int,
                date_expired.1 as int,
                date_expired.2 as int,
            ),
            r.wf(),
    {
        let t = now_ts();
        let expires = match timestamp_of_ymd(date_expired.0, date_expired.1, date_expired.2) {
            Some(e) => e,
            None => {
                proof {
                    assert(false);
                }
                0
            },
        };
        Metadata {
            id: 0,
            c_time: t,
            m_time: t,
            author: author.clone(),
            category,
            status: Status::Beginning,
            date_expired: expires,
        }
    }

    pub fn id(&self) -> (r: i64)
        ensures
            r == self.id,
    {
        self.id
    }

    pub fn c_time(&self) -> (r: i64)
        ensures
            r == self.c_time,
    {
        self.c_time
    }

    pub fn m_time(&self) -> (r: i64)
        ensures
            r == self.m_time,
    {
        self.m_time
    }

    /// Advances the modification time to `m_time` if that moves it forward;
    /// the trail never runs backwards, whatever the clock handed in.
    pub fn set_m_time(&mut self, m_time: i64)
        ensures
            *final(self) == (Metadata {
                m_time: if m_time > old(self).m_time {
                    m_time
                } else {
                    old(self).m_time
                },
                ..*old(self)
            }),
            final(self).m_time >= old(self).m_time,
            old(self).wf() ==> final(self).wf(),
    {
        if m_time > self.m_time {
            self.m_time = m_time;
        }
    }

    pub fn author(&self) -> (r: &User)
        ensures
            r == self.author,
    {
        &self.author
    }

    /// Replaces the author and bumps the modification time.
    pub fn set_author(&mut self, author: User)
        ensures
            *final(self) == (Metadata {
                author,
                m_time: final(self).m_time,
                ..*old(self)
            }),
            final(self).m_time >= old(self).m_time,
            old(self).wf() ==> final(self).wf(),
    {
        self.author = author;
        let t = now_ts();
        self.set_m_time(t);
    }

    pub fn category(&self) -> (r: &Category)
        ensures
            r == self.category,
    {
        &self.category
    }

    /// Replaces the category and bumps the modification time.
    pub fn set_category(&mut self, category: Category)
        ensures
            *final(self) == (Metadata {
                category,
                m_time: final(self).m_time,
                ..*old(self)
            }),
            final(self).m_time >= old(self).m_time,
            old(self).wf() ==> final(self).wf(),
    {
        self.category = category;
        let t = now_ts();
        self.set_m_time(t);
    }

    pub fn status(&self) -> (r: Status)
        ensures
            r == self.status,
    {
        self.status
    }

    /// Replaces the status and bumps the modification time.  No transition
    /// is restricted: any status may follow any other.
    pub fn set_status(&mut self, status: Status)
        ensures
            *final(self) == (Metadata {
                status,
                m_time: final(self).m_time,
                ..*old(self)
            }),
            final(self).m_time >= old(self).m_time,
            old(self).wf() ==> final(self).wf(),
    {
        self.status = status;
        let t = now_ts();
        self.set_m_time(t);
    }

    pub fn date_expired(&self) -> (r: i64)
        ensures
            r == self.date_expired,
    {
        self.date_expired
    }

    /// Replaces the expiry timestamp and bumps the modification time.
    pub fn set_date_expired(&mut self, date: i64)
        ensures
            *final(self) == (Metadata {
                date_expired: date,
                m_time: final(self).m_time,
                ..*old(self)
            }),
            final(self).m_time >= old(self).m_time,
            old(self).wf() ==> final(self).wf(),
    {
        self.date_expired = date;
        let t = now_ts();
        self.set_m_time(t);
    }
}

/// Relies on rusqlite::Connection::prepare and Statement::insert: adds one
/// row to `metadata`, resolving the author and category rows by name, and
/// returns its rowid.
#[verifier::external_body]
fn insert_metadata_row(
    conn: &rusqlite::Connection,
    c_time: i64,
    m_time: i64,
    author_name: &String,
    category_name: &String,
    status: i64,
    date_expired: i64,
) -> (r: Result<i64, rusqlite::Error>) {
    let mut stmt = conn.prepare(
        "\nINSERT INTO metadata VALUES (NULL, ?, ?, (SELECT id FROM users WHERE name  = ?), (SELECT id FROM categories WHERE name = ?), ?, ?);\n",
    )?;
    stmt.insert((c_time, m_time, author_name.as_str(), category_name.as_str(), status,
        date_expired))
}

/// Relies on rusqlite::Connection::execute: rewrites the mutable columns of
/// the `metadata` row with the given id.
#[verifier::external_body]
fn update_metadata_row(
    conn: &rusqlite::Connection,
    id: i64,
    m_time: i64,
    author_id: i64,
    category_id: i64,
    status: i64,
    date_expired: i64,
) -> (r: Result<usize, rusqlite::Error>) {
    conn.execute(
        "UPDATE metadata SET m_time = ?, author_id = ?, category_id = ?, status = ?, date_expired = ? WHERE id = ?;",
        (m_time, author_id, category_id, status, date_expired, id),
    )
}

/// Relies on rusqlite::Connection::query_row: the single `metadata` row with
/// the given id, as plain column values.
#[verifier::external_body]
fn select_metadata_row(conn: &rusqlite::Connection, id: i64) -> (r: Result<
    (i64, i64, i64, i64, i64, i64, i64),
    rusqlite::Error,
>) {
    conn.query_row("SELECT * FROM metadata WHERE id = ?;", (id,), |row| {
        Ok((row.get(0)?, row.get(1)?, row.get(2)?, row.get(3)?, row.get(4)?, row.get(5)?,
            row.get(6)?))
    })
}

impl Metadata {
    /// Rewrites this envelope's stored row in place; the envelope itself
    /// does not change.
    pub fn update(&self, db: &Db) -> (r: DbResult<usize>)
        ensures
            r matches Err(e) ==> e is SqliteError,
    {
        match update_metadata_row(
            db.conn(),
            self.id,
            self.m_time,
            self.author.id,
            self.category.id,
            self.status.get_num(),
            self.date_expired,
        ) {
            Ok(changed) => Ok(changed),
            Err(e) => Err(DbError::from(e)),
        }
    }

    /// Stores this envelope as a new row, resolving author and category by
    /// name; on success the row's id becomes this envelope's id and nothing
    /// else changes.
    pub fn save_to_db(&mut self, db: &Db) -> (r: DbResult<i64>)
        ensures
            r matches Ok(id) ==> *final(self) == (Metadata { id, ..*old(self) }),
            r is Err ==> *final(self) == *old(self),
            r matches Err(e) ==> e is SqliteError,
    {
        match insert_metadata_row(
            db.conn(),
            self.c_time,
            self.m_time,
            &self.author.name,
            &self.category.name,
            self.status.get_num(),
            self.date_expired,
        ) {
            Ok(id) => {
                self.id = id;
                Ok(id)
            },
            Err(e) => Err(DbError::from(e)),
        }
    }

    /// Loads the stored envelope with the given id, resolving its author and
    /// category rows and decoding its status leniently.
    pub fn get_by_id(db: &Db, id: i64) -> (r: DbResult<Metadata>)
        ensures
            r matches Err(e) ==> e is SqliteError,
    {
        let row = match select_metadata_row(db.conn(), id) {
            Ok(row) => row,
            Err(e) => {
                return Err(DbError::from(e));
            },
        };
        let author = match User::get_by_id(db, row.3) {
            Ok(author) => author,
            Err(e) => {
                return Err(e);
            },
        };
        let category = match Category::get_by_id(db, row.4) {
            Ok(category) => category,
            Err(e) => {
                return Err(e);
            },
        };
        Ok(
            Metadata {
                id: row.0,
                c_time: row.1,
                m_time: row.2,
                author,
                category,
                status: Status::from_num(row.5),
                date_expired: row.6,
            },
        )
    }
}

} // verus!
