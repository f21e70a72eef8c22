use ticket_tracker::db::Db;
use ticket_tracker::errors::DbError;
use ticket_tracker::user::{is_auth, User};

#[test]
fn new_user() {
    let new_user = User {
        id: 0,
        name: "Test".to_string(),
        pass: "qwerty".to_string(),
        pass_hash: "d8578edf8458ce6fbc5bb76a58c5ca4".to_string(),
    };
    assert_eq!(new_user, User::new("Test", "qwerty"));
}

#[test]
fn auth_user() {
    let users = vec![
        User::new("1", "1"),
        User::new("2", "2"),
        User::new("test", "pass"),
        User::new("right", "qwerty"),
    ];

    assert!(is_auth(&users, "right", "qwerty"));
    assert!(!is_auth(&users, "2", "qwerty"));
    assert!(!is_auth(&users, "wer", "qwef"));
}

#[test]
fn check_init_root() {
    let db = Db::open_in_memory().and_then(|d| d.init_root()).unwrap();
    let row: (String, String, String) = db
        .conn()
        .query_row(
            "\nSELECT * FROM users WHERE name = ?;\n",
            (&"root",),
            |row| Ok((row.get(1)?, row.get(2)?, row.get(3)?)),
        )
        .unwrap();
    assert_eq!(row.0, "root");
    assert_eq!(row.1, "toor");
    assert_eq!(row.2, "7b24afc8bc80e548d66c4e7ff72171c5");
}

#[test]
fn init_root_is_idempotent() {
    let db = Db::open_in_memory().and_then(|d| d.init_root()).unwrap();
    let db = db.init_root().unwrap();
    let users = User::get_users(&db).unwrap();
    assert_eq!(users.len(), 1);
    assert_eq!(users[0].name(), "root");
    assert!(users[0].is_root());
}

#[test]
fn default_user_is_blank() {
    let u = User::default();
    assert_eq!(u.id(), 0);
    assert_eq!(u.name(), "");
    assert_eq!(u.pass(), "");
    assert_eq!(u, User::new("", ""));
    assert!(!u.is_root());
}

#[test]
fn set_replaces_every_field() {
    let mut u = User::default();
    let v = User::new("Someone", "secret");
    u.set(v.clone());
    assert_eq!(u, v);
}

#[test]
fn user_rows_round_trip() {
    let db = Db::open_in_memory().unwrap();
    let mut eve = User::new("eve", "pw1");
    assert!(!eve.exists_in_db(&db).unwrap());
    let id = eve.save_to_db(&db).unwrap();
    assert!(id > 0);
    assert_eq!(eve.id(), id);
    assert!(eve.exists_in_db(&db).unwrap());

    let got = User::get_user(&db, "eve").unwrap();
    assert_eq!(got, eve);
    let by_id = User::get_by_id(&db, id).unwrap();
    assert_eq!(by_id, eve);

    User::update_by_id(&db, id, "eve", "pw2").unwrap();
    let updated = User::get_user(&db, "eve").unwrap();
    assert_eq!(updated.pass(), "pw2");
    assert_eq!(updated.pass_hash(), User::new("eve", "pw2").pass_hash());

    User::delete_by_id(&db, id).unwrap();
    let gone = User::get_user(&db, "eve");
    assert!(matches!(gone, Err(DbError::SqliteError(_))));
}
