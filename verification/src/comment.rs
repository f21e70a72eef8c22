//! Time-stamped comments on a document.  A comment is immutable once
//! created: it snapshot-copies the acting user at creation time, its creation
//! time is fixed then, and it carries no modification time.

use vstd::prelude::*;

use crate::db::Db;
use crate::errors::{DbError, DbResult};
use crate::user::User;

verus! {

/// One entry of a document's append-only comment log.
#[derive(Debug)]
pub struct Comment {
    pub id: i64,
    pub author: User,
    pub text: String,
    pub c_time: i64,
}

/// What a comment says and who said it when: everything but the storage id.
pub open spec fn same_content(a: Comment, b: Comment) -> bool {
    &&& a.author == b.author
    &&& a.text@ == b.text@
    &&& a.c_time == b.c_time
}

impl Clone for Comment {
    fn clone(&self) -> (r: Self)
        ensures
            r == *self,
    {
        Comment {
            id: self.id,
            author: self.author.clone(),
            text: self.text.clone(),
            c_time: self.c_time,
        }
    }
}

impl Comment {
    /// A fresh, unsaved comment: the acting user is copied in, the creation
    /// time is read from the clock now and never changes afterwards.
    pub fn new(user: &User, text: String) -> (r: Self)
        ensures
            r.id == 0,
            r.author == *user,
            r.text@ == text@,
    {
        Comment { id: 0, author: user.clone(), text, c_time: crate::clock::now_ts() }
    }

    pub fn id(&self) -> (r: i64)
        ensures
            r == self.id,
    {
        self.id
    }

    pub fn author(&self) -> (r: &User)
        ensures
            r == self.author,
    {
        &self.author
    }

    pub fn text(&self) -> (r: &str)
        ensures
            r@ == self.text@,
    {
        self.text.as_str()
    }

    pub fn c_time(&self) -> (r: i64)
        ensures
            r == self.c_time,
    {
        self.c_time
    }
}

/// Relies on rusqlite::Connection::prepare and Statement::insert: adds one
/// row to `comments`, keyed to the document row `doc_id`, and returns its
/// rowid.
#[verifier::external_body]
fn insert_comment_row(
    conn: &rusqlite::Connection,
    author_name: &String,
    text: &String,
    c_time: i64,
    doc_id: i64,
) -> (r: Result<i64, rusqlite::Error>) {
    let mut stmt = conn.prepare(
        "\nINSERT INTO comments VALUES (NULL, (SELECT id FROM users WHERE name = ?), ?, ?, ?);\n",
    )?;
    stmt.insert((author_name.as_str(), text.as_str(), c_time, doc_id))
}

/// Relies on rusqlite::Connection::prepare and Statement::query_map: every
/// `comments` row keyed to the document row `doc_id`, as plain column
/// values, in stored order.
#[verifier::external_body]
fn select_comment_rows(conn: &rusqlite::Connection, doc_id: i64) -> (r: Result<
    Vec<(i64, i64, String, i64)>,
    rusqlite::Error,
>) {
    let mut stmt = conn.prepare("\nSELECT * FROM comments WHERE doc_id = ?;\n")?;
    let rows = stmt.query_map((doc_id,), |row| {
        Ok((row.get(0)?, row.get(1)?, row.get(2)?, row.get(3)?))
    })?;
    rows.collect()
}

impl Comment {
    /// Stores this comment as a new row keyed to the document row `doc_id`;
    /// on success the row's id becomes this comment's id and the content
    /// stays as it was.
    pub fn save_to_db(&mut self, db: &Db, doc_id: i64) -> (r: DbResult<i64>)
        ensures
            r matches Ok(id) ==> *final(self) == (Comment { id, ..*old(self) }),
            r is Err ==> *final(self) == *old(self),
            r matches Err(e) ==> e is SqliteError,
    {
        match insert_comment_row(db.conn(), &self.author.name, &self.text, self.c_time, doc_id) {
            Ok(id) => {
                self.id = id;
                Ok(id)
            },
            Err(e) => Err(DbError::from(e)),
        }
    }

    /// Loads every stored comment keyed to the document row `doc_id`, in
    /// stored order, resolving each author row to a user.
    pub fn get_by_doc_id(db: &Db, doc_id: i64) -> (r: DbResult<Vec<Comment>>)
        ensures
            r matches Err(e) ==> e is SqliteError,
    {
        let rows = match select_comment_rows(db.conn(), doc_id) {
            Ok(rows) => rows,
            Err(e) => {
                return Err(DbError::from(e));
            },
        };
        let mut comments: Vec<Comment> = Vec::new();
        let n = rows.len();
        let mut i: usize = 0;
        while i < n
            invariant
                n == rows@.len(),
                0 <= i <= n,
            decreases n - i,
        {
            let row = &rows[i];
            let author = match User::get_by_id(db, row.1) {
                Ok(author) => author,
                Err(e) => {
                    return Err(e);
                },
            };
            comments.push(Comment { id: row.0, author, text: row.2.clone(), c_time: row.3 });
            i += 1;
        }
        Ok(comments)
    }
}

} // verus!
