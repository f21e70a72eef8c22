use ticket_tracker::category::Category;
use ticket_tracker::comment::Comment;
use ticket_tracker::db::Db;
use ticket_tracker::document::Document;
use ticket_tracker::errors::DbError;
use ticket_tracker::metadata::Status;
use ticket_tracker::user::User;

fn seeded_db() -> (Db, User, User) {
    let db = Db::open_in_memory().unwrap();
    let mut alice = User::new("Alice", "pw");
    alice.save_to_db(&db).unwrap();
    let mut bob = User::new("Bob", "pw");
    bob.save_to_db(&db).unwrap();
    (db, alice, bob)
}

fn stored_category(db: &Db, name: &str) -> Category {
    let mut c = Category::new(name);
    c.save_to_db(db).unwrap();
    c
}

#[test]
fn creation_scenario() {
    let (db, alice, bob) = seeded_db();
    let finance = stored_category(&db, "Finance");
    let doc = Document::new(
        "Invoice".to_string(),
        &alice,
        finance,
        bob,
        (2024, 12, 31),
        Some(Comment::new(&alice, "please review".to_string())),
    );
    assert_eq!(doc.id(), 0);
    assert_eq!(doc.name(), "Invoice");
    assert_eq!(doc.metadata().status(), Status::Beginning);
    assert_eq!(doc.permission().get_int(), 750);
    assert_eq!(doc.comments().len(), 1);
    assert_eq!(doc.comments()[0].author().name(), "Alice");
    assert_eq!(doc.comments()[0].text(), "please review");
    assert_eq!(doc.responsible().name(), "Bob");
    assert!(doc.data().is_none());
    // Midnight UTC of 2024-12-31.
    assert_eq!(doc.metadata().date_expired(), 1735603200);
    assert_eq!(doc.metadata().c_time(), doc.metadata().m_time());
}

#[test]
fn status_round_trip() {
    for s in [Status::Beginning, Status::InProgress, Status::Complete] {
        assert_eq!(Status::from_num(s.get_num()), s);
    }
    assert_eq!(Status::Beginning.get_num(), 0);
    assert_eq!(Status::InProgress.get_num(), 1);
    assert_eq!(Status::Complete.get_num(), 2);
    assert_eq!(Status::from_num(99), Status::Beginning);
    assert_eq!(Status::from_num(-1), Status::Beginning);
}

#[test]
fn metadata_modification_time_is_monotonic() {
    let (_db, alice, bob) = seeded_db();
    let finance = Category::new("Finance");
    let mut doc = Document::new(
        "Ticket".to_string(),
        &alice,
        finance,
        bob.clone(),
        (2025, 1, 1),
        None,
    );
    let c_time = doc.metadata().c_time();
    let mut last = doc.metadata().m_time();
    assert!(last >= c_time);

    doc.set_name("Renamed".to_string());
    assert!(doc.metadata().m_time() >= last);
    last = doc.metadata().m_time();

    doc.metadata_mut().set_status(Status::InProgress);
    assert!(doc.metadata().m_time() >= last);
    last = doc.metadata().m_time();

    doc.metadata_mut().set_author(bob.clone());
    assert!(doc.metadata().m_time() >= last);
    last = doc.metadata().m_time();

    doc.metadata_mut().set_category(Category::new("Legal"));
    assert!(doc.metadata().m_time() >= last);
    last = doc.metadata().m_time();

    doc.metadata_mut().set_date_expired(0);
    assert!(doc.metadata().m_time() >= last);
    last = doc.metadata().m_time();

    doc.set_responsible(bob);
    assert!(doc.metadata().m_time() >= last);
    last = doc.metadata().m_time();

    // A stale timestamp never rolls the trail back.
    doc.metadata_mut().set_m_time(c_time - 100);
    assert_eq!(doc.metadata().m_time(), last);
    assert!(doc.metadata().m_time() >= c_time);
}

#[test]
fn persistence_ordering() {
    let (db, alice, bob) = seeded_db();
    let finance = stored_category(&db, "Finance");
    let mut doc = Document::new(
        "Invoice".to_string(),
        &alice,
        finance,
        bob.clone(),
        (2024, 12, 31),
        Some(Comment::new(&alice, "please review".to_string())),
    );

    // A comment cannot be persisted against a document with no stored id.
    let early = doc.add_comment(&db, Comment::new(&alice, "too early".to_string()));
    assert!(matches!(early, Err(DbError::InvalidState)));

    // Metadata, then the document row, then the comments.
    let doc_id = doc.save_to_db(&db).unwrap();
    assert!(doc_id > 0);
    assert_eq!(doc.id(), doc_id);
    assert!(doc.metadata().id() > 0);

    // The stored comment is keyed to the document's assigned id.
    let comments = Comment::get_by_doc_id(&db, doc_id).unwrap();
    assert_eq!(comments.len(), 1);
    assert_eq!(comments[0].text(), "please review");
    assert_eq!(comments[0].author().name(), "Alice");

    // Once the id exists, adding a comment persists it under the same key.
    let cid = doc
        .add_comment(&db, Comment::new(&bob, "done".to_string()))
        .unwrap();
    assert!(cid > 0);
    let comments = Comment::get_by_doc_id(&db, doc_id).unwrap();
    assert_eq!(comments.len(), 2);
    assert_eq!(comments[0].text(), "please review");
    assert_eq!(comments[1].text(), "done");
    assert_eq!(comments[1].author().name(), "Bob");
}

#[test]
fn stored_document_round_trip() {
    let (db, alice, bob) = seeded_db();
    let finance = stored_category(&db, "Finance");
    let mut doc = Document::new(
        "Invoice".to_string(),
        &alice,
        finance,
        bob,
        (2024, 12, 31),
        None,
    );
    let doc_id = doc.save_to_db(&db).unwrap();

    let loaded = Document::get_by_id(&db, doc_id).unwrap();
    assert_eq!(loaded.id(), doc_id);
    assert_eq!(loaded.name(), "Invoice");
    assert_eq!(loaded.permission().get_int(), 750);
    assert_eq!(loaded.metadata().status(), Status::Beginning);
    assert_eq!(loaded.metadata().author().name(), "Alice");
    assert_eq!(loaded.metadata().category().name(), "Finance");
    assert_eq!(loaded.metadata().date_expired(), 1735603200);
    assert_eq!(loaded.responsible().name(), "Bob");
    assert_eq!(loaded.comments().len(), 0);

    let all = Document::get_docs(&db).unwrap();
    assert_eq!(all.len(), 1);
    assert_eq!(all[0].name(), "Invoice");
}

#[test]
fn updated_document_is_rewritten_in_place() {
    let (db, alice, bob) = seeded_db();
    let finance = stored_category(&db, "Finance");
    let mut doc = Document::new(
        "Draft".to_string(),
        &alice,
        finance,
        bob,
        (2024, 12, 31),
        None,
    );
    let doc_id = doc.save_to_db(&db).unwrap();

    doc.set_name("Final".to_string());
    doc.metadata_mut().set_status(Status::Complete);
    doc.update(&db).unwrap();
    doc.metadata().update(&db).unwrap();

    let loaded = Document::get_by_id(&db, doc_id).unwrap();
    assert_eq!(loaded.name(), "Final");
    assert_eq!(loaded.metadata().status(), Status::Complete);
}

#[test]
fn category_rows_round_trip() {
    let db = Db::open_in_memory().unwrap();
    let mut c = Category::new("Finance");
    assert!(!c.exists_in_db(&db).unwrap());
    let id = c.save_to_db(&db).unwrap();
    assert!(id > 0);
    assert!(c.exists_in_db(&db).unwrap());

    let got = Category::get_category(&db, "Finance").unwrap();
    assert_eq!(got.id(), id);
    assert_eq!(got.name(), "Finance");
    let by_id = Category::get_by_id(&db, id).unwrap();
    assert_eq!(by_id.name(), "Finance");

    stored_category(&db, "Legal");
    let all = Category::get_categories(&db).unwrap();
    assert_eq!(all.len(), 2);

    // Names are unique: storing the same name again is rejected.
    let mut dup = Category::new("Finance");
    assert!(matches!(
        dup.save_to_db(&db),
        Err(DbError::SqliteError(_))
    ));
}

#[test]
fn apply_edit_detects_changes_field_by_field() {
    let (_db, alice, bob) = seeded_db();
    let mut doc = Document::new(
        "Draft".to_string(),
        &alice,
        Category::new("Finance"),
        bob.clone(),
        (2024, 12, 31),
        None,
    );
    let m_time = doc.metadata().m_time();

    // Submitting the form with every value as stored changes nothing.
    let unchanged = doc.apply_edit(
        "Draft".to_string(),
        alice.clone(),
        Category::new("Finance"),
        Status::Beginning,
        (2024, 12, 31),
        doc.permission(),
        bob.clone(),
    );
    assert!(!unchanged);
    assert_eq!(doc.metadata().m_time(), m_time);
    assert_eq!(doc.name(), "Draft");

    // Changing the name, the status and the responsible user applies all
    // three and reports the change.
    let changed = doc.apply_edit(
        "Final".to_string(),
        alice.clone(),
        Category::new("Finance"),
        Status::Complete,
        (2024, 12, 31),
        doc.permission(),
        alice.clone(),
    );
    assert!(changed);
    assert_eq!(doc.name(), "Final");
    assert_eq!(doc.metadata().status(), Status::Complete);
    assert_eq!(doc.responsible().name(), "Alice");
    assert_eq!(doc.metadata().author().name(), "Alice");
    assert!(doc.metadata().m_time() >= m_time);

    // Users are compared by name: a same-named author with another id does
    // not count as a change.
    let mut alice_other = alice.clone();
    alice_other.set(User::new("Alice", "other"));
    let same = doc.apply_edit(
        "Final".to_string(),
        alice_other,
        Category::new("Finance"),
        Status::Complete,
        (2024, 12, 31),
        doc.permission(),
        alice.clone(),
    );
    assert!(!same);
}
