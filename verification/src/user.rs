//! User identities.  A user carries a name, a password and the password's
//! rendered md5 digest; the name `root` designates the superuser.

use vstd::prelude::*;

use crate::db::Db;
use crate::errors::{DbError, DbResult};
use crate::hash::{bytes_to_hex_nopad, hex_nopad, md5_digest, md5_of};

verus! {

/// An identity referenced by name in role comparisons.
#[derive(Debug)]
pub struct User {
    pub id: i64,
    pub name: String,
    pub pass: String,
    pub pass_hash: String,
}

impl Clone for User {
    fn clone(&self) -> (r: Self)
        ensures
            r == *self,
    {
        User {
            id: self.id,
            name: self.name.clone(),
            pass: self.pass.clone(),
            pass_hash: self.pass_hash.clone(),
        }
    }
}

impl PartialEq for User {
    fn eq(&self, other: &User) -> (r: bool) {
        self.id == other.id && self.name == other.name && self.pass == other.pass
            && self.pass_hash == other.pass_hash
    }
}

impl vstd::std_specs::cmp::PartialEqSpecImpl for User {
    open spec fn obeys_eq_spec() -> bool {
        true
    }

    open spec fn eq_spec(&self, other: &User) -> bool {
        &&& self.id == other.id
        &&& self.name@ == other.name@
        &&& self.pass@ == other.pass@
        &&& self.pass_hash@ == other.pass_hash@
    }
}

impl User {
    /// The superuser role: designated by name alone.
    pub open spec fn spec_is_root(&self) -> bool {
        self.name@ == "root"@
    }

    /// A fresh, unsaved user: the password's digest is computed here and the
    /// id stays unassigned until the row is stored.
    pub fn new(name: &str, pass: &str) -> (r: Self)
        ensures
            r.id == 0,
            r.name@ == name@,
            r.pass@ == pass@,
            r.pass_hash@ == hex_nopad(md5_of(pass@)),
    {
        let digest = md5_digest(pass);
        User {
            id: 0,
            name: name.to_owned(),
            pass: pass.to_owned(),
            pass_hash: bytes_to_hex_nopad(&digest),
        }
    }

    /// Overwrites this user with another one, wholesale.
    pub fn set(&mut self, user: User)
        ensures
            *final(self) == user,
    {
        *self = user;
    }

    pub fn id(&self) -> (r: i64)
        ensures
            r == self.id,
    {
        self.id
    }

    pub fn name(&self) -> (r: &str)
        ensures
            r@ == self.name@,
    {
        self.name.as_str()
    }

    pub fn pass(&self) -> (r: &str)
        ensures
            r@ == self.pass@,
    {
        self.pass.as_str()
    }

    pub fn pass_hash(&self) -> (r: &str)
        ensures
            r@ == self.pass_hash@,
    {
        self.pass_hash.as_str()
    }

    pub fn is_root(&self) -> (r: bool)
        ensures
            r == self.spec_is_root(),
    {
        self.name == "root".to_owned()
    }
}

impl Default for User {
    /// The empty identity: blank name and password, digest of the empty
    /// string, no id.
    fn default() -> (r: Self)
        ensures
            r.id == 0,
            r.name@ == ""@,
            r.pass@ == ""@,
            r.pass_hash@ == hex_nopad(md5_of(""@)),
    {
        User::new("", "")
    }
}

/// Whether `name` and `pass` authenticate against a roster: the first user
/// carrying `name` decides, by comparing its stored digest against the
/// rendered md5 digest of `pass`; an absent name never authenticates.
pub open spec fn spec_is_auth(users: Seq<User>, name: Seq<char>, pass: Seq<char>) -> bool
    decreases users.len(),
{
    if users.len() == 0 {
        false
    } else if users[0].name@ == name {
        users[0].pass_hash@ == hex_nopad(md5_of(pass))
    } else {
        spec_is_auth(users.drop_first(), name, pass)
    }
}

/// Users whose names all miss do not affect the decision: the roster may be
/// cut past them.
proof fn lemma_is_auth_skip(users: Seq<User>, name: Seq<char>, pass: Seq<char>, i: int)
    requires
        0 <= i <= users.len(),
        forall|j: int| 0 <= j < i ==> users[j].name@ != name,
    ensures
        spec_is_auth(users.skip(i), name, pass) == spec_is_auth(users, name, pass),
    decreases i,
{
    if i > 0 {
        let tail = users.drop_first();
        assert(users[0].name@ != name);
        assert(spec_is_auth(users, name, pass) == spec_is_auth(tail, name, pass));
        assert(forall|j: int| 0 <= j < i - 1 ==> #[trigger] tail[j].name@ == users[j + 1].name@);
        lemma_is_auth_skip(tail, name, pass, i - 1);
        assert(tail.skip(i - 1) =~= users.skip(i));
    } else {
        assert(users.skip(0) =~= users);
    }
}

/// Checks `name` and `pass` against an in-memory roster of users, as the
/// log-in flow does after loading the roster.
pub fn is_auth(users: &Vec<User>, name: &str, pass: &str) -> (r: bool)
    ensures
        r == spec_is_auth(users@, name@, pass@),
{
    let name_owned = name.to_owned();
    let n = users.len();
    let mut i: usize = 0;
    while i < n
        invariant
            n == users@.len(),
            0 <= i <= n,
            name_owned@ == name@,
            forall|j: int| 0 <= j < i ==> users@[j].name@ != name@,
        decreases n - i,
    {
        let u = &users[i];
        if u.name == name_owned {
            let digest = md5_digest(pass);
            let hash = bytes_to_hex_nopad(&digest);
            let r = u.pass_hash == hash;
            proof {
                lemma_is_auth_skip(users@, name@, pass@, i as int);
                assert(users@.skip(i as int)[0] == users@[i as int]);
            }
            return r;
        }
        i += 1;
    }
    proof {
        lemma_is_auth_skip(users@, name@, pass@, users@.len() as int);
        assert(users@.skip(users@.len() as int) =~= Seq::<User>::empty());
    }
    false
}

/// Relies on rusqlite::Connection::prepare and Statement::insert: adds one
/// row to `users` and returns its rowid.
#[verifier::external_body]
fn insert_user_row(
    conn: &rusqlite::Connection,
    name: &String,
    pass: &String,
    pass_hash: &String,
) -> (r: Result<i64, rusqlite::Error>) {
    let mut stmt = conn.prepare("\nINSERT INTO users VALUES (NULL, $1, $2, $3);\n")?;
    stmt.insert((name.as_str(), pass.as_str(), pass_hash.as_str()))
}

/// Relies on rusqlite::Connection::prepare and Statement::exists: whether at
/// least one `users` row matches name, password and digest exactly.
#[verifier::external_body]
fn user_row_exists(
    conn: &rusqlite::Connection,
    name: &String,
    pass: &String,
    pass_hash: &String,
) -> (r: Result<bool, rusqlite::Error>) {
    let mut stmt = conn.prepare(
        "\nSELECT * FROM users WHERE name = $1 AND pass = $2 AND pass_hash = $3;\n",
    )?;
    stmt.exists((name.as_str(), pass.as_str(), pass_hash.as_str()))
}

/// Relies on rusqlite::Connection::query_row: the single `users` row with
/// the given name, as plain column values.
#[verifier::external_body]
fn select_user_by_name(conn: &rusqlite::Connection, name: &str) -> (r: Result<
    (i64, String, String, String),
    rusqlite::Error,
>) {
    conn.query_row("SELECT * FROM users WHERE name = ?", (name,), |row| {
        Ok((row.get(0)?, row.get(1)?, row.get(2)?, row.get(3)?))
    })
}

/// Relies on rusqlite::Connection::query_row: the single `users` row with
/// the given id, as plain column values.
#[verifier::external_body]
fn select_user_by_id(conn: &rusqlite::Connection, id: i64) -> (r: Result<
    (i64, String, String, String),
    rusqlite::Error,
>) {
    conn.query_row("SELECT * FROM users WHERE id = ?", (id,), |row| {
        Ok((row.get(0)?, row.get(1)?, row.get(2)?, row.get(3)?))
    })
}

/// Relies on rusqlite::Connection::prepare and Statement::query_map: every
/// `users` row, as plain column values.
#[verifier::external_body]
fn select_user_rows(conn: &rusqlite::Connection) -> (r: Result<
    Vec<(i64, String, String, String)>,
    rusqlite::Error,
>) {
    let mut stmt = conn.prepare("\nSELECT * FROM users;\n")?;
    let rows = stmt.query_map((), |row| {
        Ok((row.get(0)?, row.get(1)?, row.get(2)?, row.get(3)?))
    })?;
    rows.collect()
}

/// Relies on rusqlite::Connection::prepare and Statement::execute: deletes
/// the `users` row with the given rowid.
#[verifier::external_body]
fn delete_user_row(conn: &rusqlite::Connection, id: i64) -> (r: Result<usize, rusqlite::Error>) {
    let mut stmt = conn.prepare("\nDELETE FROM users WHERE ROWID = ?;\n")?;
    stmt.execute((id,))
}

/// Relies on rusqlite::Connection::prepare and Statement::execute: rewrites
/// name, password and digest of the `users` row with the given rowid.
#[verifier::external_body]
fn update_user_row(
    conn: &rusqlite::Connection,
    id: i64,
    name: &String,
    pass: &String,
    pass_hash: &String,
) -> (r: Result<usize, rusqlite::Error>) {
    let mut stmt = conn.prepare(
        "\nUPDATE users SET name = $1, pass = $2, pass_hash = $3 WHERE ROWID == $4;\n",
    )?;
    stmt.execute((name.as_str(), pass.as_str(), pass_hash.as_str(), id))
}

impl User {
    /// Whether a stored row matches this user's name, password and digest
    /// exactly.  The answer comes from the store.
    pub fn exists_in_db(&self, db: &Db) -> (r: DbResult<bool>)
        ensures
            r matches Err(e) ==> e is SqliteError,
    {
        match user_row_exists(db.conn(), &self.name, &self.pass, &self.pass_hash) {
            Ok(b) => Ok(b),
            Err(e) => Err(DbError::from(e)),
        }
    }

    /// Stores this user as a new row; on success the row's id becomes this
    /// user's id and nothing else changes.
    pub fn save_to_db(&mut self, db: &Db) -> (r: DbResult<i64>)
        ensures
            r matches Ok(id) ==> *final(self) == (User { id, ..*old(self) }),
            r is Err ==> *final(self) == *old(self),
            r matches Err(e) ==> e is SqliteError,
    {
        match insert_user_row(db.conn(), &self.name, &self.pass, &self.pass_hash) {
            Ok(id) => {
                self.id = id;
                Ok(id)
            },
            Err(e) => Err(DbError::from(e)),
        }
    }

    /// Loads the stored user carrying `name`.  What comes back is whatever
    /// the store holds under that name.
    pub fn get_user(db: &Db, name: &str) -> (r: DbResult<User>)
        ensures
            r matches Err(e) ==> e is SqliteError,
    {
        match select_user_by_name(db.conn(), name) {
            Ok((id, name, pass, pass_hash)) => Ok(User { id, name, pass, pass_hash }),
            Err(e) => Err(DbError::from(e)),
        }
    }

    /// Loads the stored user with the given id.
    pub fn get_by_id(db: &Db, id: i64) -> (r: DbResult<User>)
        ensures
            r matches Err(e) ==> e is SqliteError,
    {
        match select_user_by_id(db.conn(), id) {
            Ok((id, name, pass, pass_hash)) => Ok(User { id, name, pass, pass_hash }),
            Err(e) => Err(DbError::from(e)),
        }
    }

    /// Loads every stored user.
    pub fn get_users(db: &Db) -> (r: DbResult<Vec<User>>)
        ensures
            r matches Err(e) ==> e is SqliteError,
    {
        let rows = match select_user_rows(db.conn()) {
            Ok(rows) => rows,
            Err(e) => {
                return Err(DbError::from(e));
            },
        };
        let mut users: Vec<User> = Vec::new();
        let n = rows.len();
        let mut i: usize = 0;
        while i < n
            invariant
                n == rows@.len(),
                0 <= i <= n,
            decreases n - i,
        {
            let row = &rows[i];
            users.push(
                User {
                    id: row.0,
                    name: row.1.clone(),
                    pass: row.2.clone(),
                    pass_hash: row.3.clone(),
                },
            );
            i += 1;
        }
        Ok(users)
    }

    /// Deletes the stored user with the given rowid.
    pub fn delete_by_id(db: &Db, id: i64) -> (r: DbResult<()>)
        ensures
            r matches Err(e) ==> e is SqliteError,
    {
        match delete_user_row(db.conn(), id) {
            Ok(_) => Ok(()),
            Err(e) => Err(DbError::from(e)),
        }
    }

    /// Rewrites the stored user with the given rowid to carry `name`,
    /// `pass`, and the freshly computed digest of `pass`.
    pub fn update_by_id(db: &Db, id: i64, name: &str, pass: &str) -> (r: DbResult<()>)
        ensures
            r matches Err(e) ==> e is SqliteError,
    {
        let updated_user = User::new(name, pass);
        match update_user_row(
            db.conn(),
            id,
            &updated_user.name,
            &updated_user.pass,
            &updated_user.pass_hash,
        ) {
            Ok(_) => Ok(()),
            Err(e) => Err(DbError::from(e)),
        }
    }
}

impl Db {
    /// Makes sure the superuser row exists, storing the stock `root`
    /// identity if it is missing, and hands the store back.
    pub fn init_root(self) -> (r: DbResult<Db>)
        ensures
            r matches Err(e) ==> e is SqliteError,
    {
        let mut root_user: User = User::new("root", "toor");
        match root_user.exists_in_db(&self) {
            Ok(true) => Ok(self),
            Ok(false) => {
                match root_user.save_to_db(&self) {
                    Ok(_) => Ok(self),
                    Err(e) => Err(e),
                }
            },
            Err(e) => Err(e),
        }
    }
}

} // verus!
