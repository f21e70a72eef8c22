//! The ticket itself: name, metadata envelope, permission grid, optional
//! data blob, responsible user, and the append-only comment log.
//!
//! The aggregate owns the persistence ordering: its metadata row is stored
//! first (yielding the id the document row references), then the document
//! row (yielding the id every comment row references), then the comments.
//! The body of `save_to_db` can only hand those ids on in that order, and
//! `add_comment` refuses to run before the document has a stored id.

use vstd::prelude::*;

use crate::category::Category;
use crate::clock::{now_ts, timestamp_of_ymd, ts_of_ymd, valid_ymd};
use crate::comment::{same_content, Comment};
use crate::db::Db;
use crate::errors::{DbError, DbResult};
use crate::metadata::{Metadata, Status};
use crate::permission::{default_grid, grid_value, Permission};
use crate::user::User;

verus! {

/// A trackable work item.  The id stays unassigned (zero) until the
/// document row is stored.
#[derive(Debug)]
pub struct Document {
    pub id: i64,
    pub name: String,
    pub metadata: Metadata,
    pub permission: Permission,
    pub data: Option<Vec<u8>>,
    pub comments: Vec<Comment>,
    pub responsible: User,
}

/// Whether an edit form differs from the stored document anywhere: names
/// decide for users and categories, plain equality for the rest.
pub open spec fn edit_changes(
    pre: Document,
    name: Seq<char>,
    author: User,
    category: Category,
    status: Status,
    expires: int,
    permission: Permission,
    responsible: User,
) -> bool {
    ||| pre.name@ != name
    ||| pre.metadata.author.name@ != author.name@
    ||| pre.metadata.category.name@ != category.name@
    ||| pre.metadata.status != status
    ||| pre.metadata.date_expired != expires
    ||| pre.permission != permission
    ||| pre.responsible.name@ != responsible.name@
}

/// What holds of a document after an edit form was applied to it: every
/// submitted field is in force (a user or category is only swapped in where
/// its name differs), the identity, log, data and creation time are
/// untouched, and the modification time has not moved backwards.
pub open spec fn edit_applied(
    pre: Document,
    post: Document,
    name: Seq<char>,
    author: User,
    category: Category,
    status: Status,
    expires: int,
    permission: Permission,
    responsible: User,
) -> bool {
    &&& post.name@ == name
    &&& post.metadata.status == status
    &&& post.metadata.date_expired == expires
    &&& post.permission == permission
    &&& post.metadata.author == (if pre.metadata.author.name@ == author.name@ {
        pre.metadata.author
    } else {
        author
    })
    &&& post.metadata.category == (if pre.metadata.category.name@ == category.name@ {
        pre.metadata.category
    } else {
        category
    })
    &&& post.responsible == (if pre.responsible.name@ == responsible.name@ {
        pre.responsible
    } else {
        responsible
    })
    &&& post.id == pre.id
    &&& post.comments == pre.comments
    &&& data_view(post.data) == data_view(pre.data)
    &&& post.metadata.id == pre.metadata.id
    &&& post.metadata.c_time == pre.metadata.c_time
    &&& post.metadata.m_time >= pre.metadata.m_time
}

/// The bytes behind an optional blob, for contracts.
pub open spec fn data_view(d: Option<Vec<u8>>) -> Option<Seq<u8>> {
    match d {
        Some(v) => Some(v@),
        None => None,
    }
}

impl Document {
    /// The document's audit-trail invariant, inherited from its envelope.
    pub open spec fn wf(&self) -> bool {
        self.metadata.wf()
    }

    /// A fresh, unsaved ticket: a new envelope created now with status
    /// `Beginning`, the default permission grid (which encodes to 750), no
    /// data, and a log holding the initial comment if one was given.
    pub fn new(
        name: String,
        author: &User,
        category: Category,
        responsible_user: User,
        expired_date: (u32, u32, u32),
        comment: Option<Comment>,
    ) -> (r: Self)
        requires
            valid_ymd(expired_date.0 as int, expired_date.1 as int, expired_date.2 as int),
        ensures
            r.id == 0,
            r.name@ == name@,
            r.metadata.id == 0,
            r.metadata.author == *author,
            r.metadata.category == category,
            r.metadata.status == Status::Beginning,
            r.metadata.c_time == r.metadata.m_time,
            r.metadata.date_expired == ts_of_ymd(
                expired_date.0 as int,
                expired_date.1 as int,
                expired_date.2 as int,
            ),
            r.permission == default_grid(),
            grid_value(r.permission) == 750,
            r.data is None,
            comment matches Some(c) ==> r.comments@ == seq![c],
            comment is None ==> r.comments@.len() == 0,
            r.responsible == responsible_user,
            r.wf(),
    {
        let comments: Vec<Comment> = match comment {
            Some(c) => vec![c],
            None => Vec::new(),
        };
        Document {
            id: 0,
            name,
            metadata: Metadata::new(author, category, expired_date),
            permission: Permission::new(),
            data: None,
            comments,
            responsible: responsible_user,
        }
    }

    pub fn id(&self) -> (r: i64)
        ensures
            r == self.id,
    {
        self.id
    }

    pub fn name(&self) -> (r: &str)
        ensures
            r@ == self.name@,
    {
        self.name.as_str()
    }

    /// Renames the ticket and bumps the modification time.
    pub fn set_name(&mut self, name: String)
        ensures
            *final(self) == (Document { name, metadata: final(self).metadata, ..*old(self) }),
            final(self).metadata == (Metadata {
                m_time: final(self).metadata.m_time,
                ..old(self).metadata
            }),
            final(self).metadata.m_time >= old(self).metadata.m_time,
            old(self).wf() ==> final(self).wf(),
    {
        self.name = name;
        let t = now_ts();
        self.metadata.set_m_time(t);
    }

    pub fn metadata(&self) -> (r: &Metadata)
        ensures
            r == self.metadata,
    {
        &self.metadata
    }

    pub fn metadata_mut(&mut self) -> (r: &mut Metadata)
        ensures
            *r == old(self).metadata,
            *final(self) == (Document { metadata: *final(r), ..*old(self) }),
    {
        &mut self.metadata
    }

    pub fn permission(&self) -> (r: Permission)
        ensures
            r == self.permission,
    {
        self.permission
    }

    /// Replaces the permission grid and bumps the modification time.
    pub fn set_permission(&mut self, permission: Permission)
        ensures
            *final(self) == (Document {
                permission,
                metadata: final(self).metadata,
                ..*old(self)
            }),
            final(self).metadata == (Metadata {
                m_time: final(self).metadata.m_time,
                ..old(self).metadata
            }),
            final(self).metadata.m_time >= old(self).metadata.m_time,
            old(self).wf() ==> final(self).wf(),
    {
        self.permission = permission;
        let t = now_ts();
        self.metadata.set_m_time(t);
    }

    /// A copy of the data blob, if any.
    pub fn data(&self) -> (r: Option<Vec<u8>>)
        ensures
            data_view(r) == data_view(self.data),
    {
        match &self.data {
            Some(v) => {
                let c = v.clone();
                proof {
                    assert(c@ =~= v@);
                }
                Some(c)
            },
            None => None,
        }
    }

    pub fn comments(&self) -> (r: &Vec<Comment>)
        ensures
            r == self.comments,
    {
        &self.comments
    }

    pub fn comments_mut(&mut self) -> (r: &mut Vec<Comment>)
        ensures
            *r == old(self).comments,
            *final(self) == (Document { comments: *final(r), ..*old(self) }),
    {
        &mut self.comments
    }

    pub fn responsible(&self) -> (r: &User)
        ensures
            r == self.responsible,
    {
        &self.responsible
    }

    /// Applies an edit form to the ticket, one field at a time: a field is
    /// replaced (touching the modification time) only where the submitted
    /// value differs from the stored one — users and categories compared by
    /// name — and the answer says whether anything changed at all, so the
    /// caller knows whether to rewrite the stored rows.
    #[verifier::rlimit(60)]
    pub fn apply_edit(
        &mut self,
        name: String,
        author: User,
        category: Category,
        status: Status,
        date_expired: (u32, u32, u32),
        permission: Permission,
        responsible: User,
    ) -> (changed: bool)
        requires
            valid_ymd(date_expired.0 as int, date_expired.1 as int, date_expired.2 as int),
        ensures
            changed == edit_changes(
                *old(self),
                name@,
                author,
                category,
                status,
                ts_of_ymd(date_expired.0 as int, date_expired.1 as int, date_expired.2 as int),
                permission,
                responsible,
            ),
            edit_applied(
                *old(self),
                *final(self),
                name@,
                author,
                category,
                status,
                ts_of_ymd(date_expired.0 as int, date_expired.1 as int, date_expired.2 as int),
                permission,
                responsible,
            ),
            !changed ==> *final(self) == *old(self),
            old(self).wf() ==> final(self).wf(),
    {
        let mut changed = false;

        if !(self.name == name) {
            self.set_name(name);
            changed = true;
        }
        if !(self.metadata.author.name == author.name) {
            self.metadata.set_author(author);
            changed = true;
        }
        if !(self.metadata.category.name == category.name) {
            self.metadata.set_category(category);
            changed = true;
        }
        if !(self.metadata.status == status) {
            self.metadata.set_status(status);
            changed = true;
        }
        let expires = match timestamp_of_ymd(date_expired.0, date_expired.1, date_expired.2) {
            Some(e) => e,
            None => {
                proof {
                    assert(false);
                }
                0
            },
        };
        if self.metadata.date_expired != expires {
            self.metadata.set_date_expired(expires);
            changed = true;
        }
        if !(self.permission == permission) {
            self.set_permission(permission);
            changed = true;
        }
        if !(self.responsible.name == responsible.name) {
            self.set_responsible(responsible);
            changed = true;
        }
        changed
    }

    /// The self-enforcing edit: the form is applied only where the access
    /// decision grants `actor` write access to this document; a denied call
    /// changes nothing and says so.  On a grant the answer says whether
    /// anything changed, as `apply_edit` does.
    pub fn try_edit(
        &mut self,
        actor: &User,
        name: String,
        author: User,
        category: Category,
        status: Status,
        date_expired: (u32, u32, u32),
        permission: Permission,
        responsible: User,
    ) -> (r: Option<bool>)
        requires
            valid_ymd(date_expired.0 as int, date_expired.1 as int, date_expired.2 as int),
        ensures
            r is Some <==> crate::access::spec_access_granted(actor, old(self)),
            r is None ==> *final(self) == *old(self),
            r matches Some(changed) ==> changed == edit_changes(
                *old(self),
                name@,
                author,
                category,
                status,
                ts_of_ymd(date_expired.0 as int, date_expired.1 as int, date_expired.2 as int),
                permission,
                responsible,
            ),
            r is Some ==> edit_applied(
                *old(self),
                *final(self),
                name@,
                author,
                category,
                status,
                ts_of_ymd(date_expired.0 as int, date_expired.1 as int, date_expired.2 as int),
                permission,
                responsible,
            ),
            r matches Some(changed) && !changed ==> *final(self) == *old(self),
            old(self).wf() ==> final(self).wf(),
    {
        if !crate::access::is_access_granted(actor, self) {
            return None;
        }
        Some(self.apply_edit(name, author, category, status, date_expired, permission,
            responsible))
    }

    /// Replaces the responsible user and bumps the modification time.  The
    /// author is untouched: the two references are independent.
    pub fn set_responsible(&mut self, responsible: User)
        ensures
            *final(self) == (Document {
                responsible,
                metadata: final(self).metadata,
                ..*old(self)
            }),
            final(self).metadata == (Metadata {
                m_time: final(self).metadata.m_time,
                ..old(self).metadata
            }),
            final(self).metadata.m_time >= old(self).metadata.m_time,
            old(self).wf() ==> final(self).wf(),
    {
        self.responsible = responsible;
        let t = now_ts();
        self.metadata.set_m_time(t);
    }
}

/// Relies on rusqlite::Connection::prepare and Statement::insert: adds one
/// row to `docs`, referencing the already-stored metadata row, and returns
/// its rowid.
#[verifier::external_body]
fn insert_doc_row(
    conn: &rusqlite::Connection,
    name: &String,
    metadata_id: i64,
    permission: i64,
    data: &Option<Vec<u8>>,
    responsible_id: i64,
) -> (r: Result<i64, rusqlite::Error>) {
    let mut stmt = conn.prepare("\nINSERT INTO docs VALUES (NULL, ?, ?, ?, ?, ?);\n")?;
    stmt.insert((name.as_str(), metadata_id, permission, data, responsible_id))
}

/// Relies on rusqlite::Connection::execute: rewrites the mutable columns of
/// the `docs` row with the given id.
#[verifier::external_body]
fn update_doc_row(
    conn: &rusqlite::Connection,
    id: i64,
    name: &String,
    permission: i64,
    responsible_id: i64,
) -> (r: Result<usize, rusqlite::Error>) {
    conn.execute(
        "UPDATE docs SET name = ?, permission = ?, responsible = ? WHERE id = ?;",
        (name.as_str(), permission, responsible_id, id),
    )
}

/// Relies on rusqlite::Connection::prepare and Statement::query_map: every
/// `docs` row, as plain column values.
#[verifier::external_body]
fn select_doc_rows(conn: &rusqlite::Connection) -> (r: Result<
    Vec<(i64, String, i64, i64, Option<Vec<u8>>, i64)>,
    rusqlite::Error,
>) {
    let mut stmt = conn.prepare("\nSELECT * FROM docs;\n")?;
    let rows = stmt.query_map((), |row| {
        Ok((row.get(0)?, row.get(1)?, row.get(2)?, row.get(3)?, row.get(4)?, row.get(5)?))
    })?;
    rows.collect()
}

/// Relies on rusqlite::Connection::query_row: the single `docs` row with the
/// given id, as plain column values.
#[verifier::external_body]
fn select_doc_row(conn: &rusqlite::Connection, doc_id: i64) -> (r: Result<
    (i64, String, i64, i64, Option<Vec<u8>>, i64),
    rusqlite::Error,
>) {
    conn.query_row("SELECT * FROM docs WHERE id = ?", (doc_id,), |row| {
        Ok((row.get(0)?, row.get(1)?, row.get(2)?, row.get(3)?, row.get(4)?, row.get(5)?))
    })
}

impl Document {
    /// Touches the envelope, rewrites its stored row, then stores the
    /// comment keyed to this document's id.  The document must already have
    /// a stored id: on an unsaved document nothing is touched and the call
    /// fails with the state error.
    pub fn add_comment(&mut self, db: &Db, comment: Comment) -> (r: DbResult<i64>)
        ensures
            old(self).id == 0 ==> (r matches Err(e) && e is InvalidState) && *final(self)
                == *old(self),
            old(self).id != 0 ==> (r matches Err(e) ==> e is SqliteError),
            final(self).metadata == (Metadata {
                m_time: final(self).metadata.m_time,
                ..old(self).metadata
            }),
            final(self).metadata.m_time >= old(self).metadata.m_time,
            *final(self) == (Document { metadata: final(self).metadata, ..*old(self) }),
            old(self).wf() ==> final(self).wf(),
    {
        if self.id == 0 {
            return Err(DbError::InvalidState);
        }
        let t = now_ts();
        self.metadata.set_m_time(t);
        match self.metadata.update(db) {
            Ok(_) => {},
            Err(e) => {
                return Err(e);
            },
        }
        let mut comment = comment;
        comment.save_to_db(db, self.id)
    }

    /// Rewrites this document's stored row in place; the document itself
    /// does not change.
    pub fn update(&self, db: &Db) -> (r: DbResult<usize>)
        ensures
            r matches Err(e) ==> e is SqliteError,
    {
        match update_doc_row(
            db.conn(),
            self.id,
            &self.name,
            self.permission.get_int(),
            self.responsible.id,
        ) {
            Ok(changed) => Ok(changed),
            Err(e) => Err(DbError::from(e)),
        }
    }

    /// Stores the whole aggregate in the required order: the metadata row
    /// first, then the document row referencing the metadata id, then every
    /// comment keyed to the fresh document id.  On success the document and
    /// its envelope carry their stored ids and all content is as before; a
    /// failure part-way leaves the earlier steps stored, as the caller
    /// observes whichever step failed.
    pub fn save_to_db(&mut self, db: &Db) -> (r: DbResult<i64>)
        ensures
            r matches Ok(id) ==> final(self).id == id,
            r matches Err(e) ==> e is SqliteError,
            final(self).name@ == old(self).name@,
            final(self).permission == old(self).permission,
            final(self).responsible == old(self).responsible,
            data_view(final(self).data) == data_view(old(self).data),
            final(self).metadata == (Metadata {
                id: final(self).metadata.id,
                ..old(self).metadata
            }),
            final(self).comments@.len() == old(self).comments@.len(),
            forall|k: int|
                0 <= k < old(self).comments@.len() ==> same_content(
                    #[trigger] final(self).comments@[k],
                    old(self).comments@[k],
                ),
            old(self).wf() ==> final(self).wf(),
    {
        let metadata_id = match self.metadata.save_to_db(db) {
            Ok(id) => id,
            Err(e) => {
                return Err(e);
            },
        };
        let perm = self.permission.get_int();
        let doc_id = match insert_doc_row(
            db.conn(),
            &self.name,
            metadata_id,
            perm,
            &self.data,
            self.responsible.id,
        ) {
            Ok(id) => id,
            Err(e) => {
                return Err(DbError::from(e));
            },
        };
        self.id = doc_id;
        let n = self.comments.len();
        let mut i: usize = 0;
        while i < n
            invariant
                n == self.comments@.len(),
                0 <= i <= n,
                self.id == doc_id,
                self.name@ == old(self).name@,
                self.permission == old(self).permission,
                self.responsible == old(self).responsible,
                data_view(self.data) == data_view(old(self).data),
                self.metadata == (Metadata { id: self.metadata.id, ..old(self).metadata }),
                self.comments@.len() == old(self).comments@.len(),
                forall|k: int|
                    0 <= k < old(self).comments@.len() ==> same_content(
                        #[trigger] self.comments@[k],
                        old(self).comments@[k],
                    ),
            decreases n - i,
        {
            let res = self.comments[i].save_to_db(db, doc_id);
            match res {
                Ok(_) => {},
                Err(e) => {
                    return Err(e);
                },
            }
            i += 1;
        }
        Ok(self.id)
    }

    /// Loads every stored document, resolving each one's envelope, grid,
    /// comment log and responsible user.
    pub fn get_docs(db: &Db) -> (r: DbResult<Vec<Document>>)
        ensures
            r matches Err(e) ==> e is SqliteError,
    {
        let rows = match select_doc_rows(db.conn()) {
            Ok(rows) => rows,
            Err(e) => {
                return Err(DbError::from(e));
            },
        };
        let mut docs: Vec<Document> = Vec::new();
        let n = rows.len();
        let mut i: usize = 0;
        while i < n
            invariant
                n == rows@.len(),
                0 <= i <= n,
            decreases n - i,
        {
            let doc = match Document::load_row(db, &rows[i]) {
                Ok(doc) => doc,
                Err(e) => {
                    return Err(e);
                },
            };
            docs.push(doc);
            i += 1;
        }
        Ok(docs)
    }

    /// Loads the stored document with the given id.
    pub fn get_by_id(db: &Db, doc_id: i64) -> (r: DbResult<Document>)
        ensures
            r matches Err(e) ==> e is SqliteError,
    {
        let row = match select_doc_row(db.conn(), doc_id) {
            Ok(row) => row,
            Err(e) => {
                return Err(DbError::from(e));
            },
        };
        Document::load_row(db, &row)
    }

    /// Assembles one document from its stored row, resolving the referenced
    /// envelope, decoding the permission grid, and loading the comment log.
    fn load_row(db: &Db, row: &(i64, String, i64, i64, Option<Vec<u8>>, i64)) -> (r: DbResult<
        Document,
    >)
        ensures
            r matches Err(e) ==> e is SqliteError,
    {
        let metadata = match Metadata::get_by_id(db, row.2) {
            Ok(m) => m,
            Err(e) => {
                return Err(e);
            },
        };
        let comments = match Comment::get_by_doc_id(db, row.0) {
            Ok(cs) => cs,
            Err(e) => {
                return Err(e);
            },
        };
        let responsible = match User::get_by_id(db, row.5) {
            Ok(u) => u,
            Err(e) => {
                return Err(e);
            },
        };
        let data = match &row.4 {
            Some(v) => Some(v.clone()),
            None => None,
        };
        Ok(
            Document {
                id: row.0,
                name: row.1.clone(),
                metadata,
                permission: Permission::from_int(row.3),
                data,
                comments,
                responsible,
            },
        )
    }
}

} // verus!
