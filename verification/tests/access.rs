use ticket_tracker::access::{is_access_granted, is_comment_granted, role_of, Role};
use ticket_tracker::category::Category;
use ticket_tracker::document::Document;
use ticket_tracker::permission::{NaivePermission, Permission};
use ticket_tracker::user::User;

fn sample_doc(author: &User, responsible: User) -> Document {
    Document::new(
        "Ticket".to_string(),
        author,
        Category::new("Finance"),
        responsible,
        (2025, 6, 30),
        None,
    )
}

#[test]
fn root_bypasses_every_grid() {
    let alice = User::new("Alice", "pw");
    let bob = User::new("Bob", "pw");
    let root = User::new("root", "toor");

    let mut doc = sample_doc(&alice, bob);
    assert!(is_access_granted(&root, &doc));
    assert!(is_comment_granted(&root, &doc));

    // Even a grid that denies everything to everyone does not stop root.
    let none = NaivePermission::new(false, false, false);
    doc.set_permission(Permission::from_naive(none, none, none));
    assert!(is_access_granted(&root, &doc));
    assert!(is_comment_granted(&root, &doc));
}

#[test]
fn role_routing_on_default_grid() {
    let alice = User::new("Alice", "pw");
    let bob = User::new("Bob", "pw");
    let carol = User::new("Carol", "pw");

    // Default grid: author = (T,T,T), responsible = (T,F,T), others = (F,F,F).
    let doc = sample_doc(&alice, bob.clone());

    assert_eq!(role_of(&alice, &doc), Role::Author);
    assert_eq!(role_of(&bob, &doc), Role::Responsible);
    assert_eq!(role_of(&carol, &doc), Role::Other);

    // The author may edit and comment.
    assert!(is_access_granted(&alice, &doc));
    assert!(is_comment_granted(&alice, &doc));

    // The responsible user may comment but not edit write-gated fields.
    assert!(!is_access_granted(&bob, &doc));
    assert!(is_comment_granted(&bob, &doc));

    // An unrelated actor may do neither.
    assert!(!is_access_granted(&carol, &doc));
    assert!(!is_comment_granted(&carol, &doc));
}

#[test]
fn author_precedence_when_also_responsible() {
    let alice = User::new("Alice", "pw");

    // Alice is both the author and the responsible user; the author row of
    // the grid judges her.
    let mut doc = sample_doc(&alice, alice.clone());
    assert_eq!(role_of(&alice, &doc), Role::Author);

    let author_row = NaivePermission::new(true, false, false);
    let responsible_row = NaivePermission::new(true, true, true);
    let others_row = NaivePermission::new(false, false, false);
    doc.set_permission(Permission::from_naive(author_row, responsible_row, others_row));
    assert!(!is_access_granted(&alice, &doc));
    assert!(!is_comment_granted(&alice, &doc));
}

#[test]
fn try_edit_enforces_the_grid() {
    let alice = User::new("Alice", "pw");
    let bob = User::new("Bob", "pw");
    let carol = User::new("Carol", "pw");
    let mut doc = sample_doc(&alice, bob.clone());

    // The responsible user lacks write on the default grid: denied, nothing
    // changes.
    let denied = doc.try_edit(
        &bob,
        "Hijacked".to_string(),
        alice.clone(),
        Category::new("Finance"),
        ticket_tracker::metadata::Status::Complete,
        (2025, 6, 30),
        doc.permission(),
        carol.clone(),
    );
    assert_eq!(denied, None);
    assert_eq!(doc.name(), "Ticket");
    assert_eq!(doc.responsible().name(), "Bob");

    // The author is granted: the edit is applied and reported.
    let granted = doc.try_edit(
        &alice,
        "Handover".to_string(),
        alice.clone(),
        Category::new("Finance"),
        ticket_tracker::metadata::Status::InProgress,
        (2025, 6, 30),
        doc.permission(),
        carol.clone(),
    );
    assert_eq!(granted, Some(true));
    assert_eq!(doc.name(), "Handover");
    assert_eq!(doc.responsible().name(), "Carol");
    assert_eq!(
        doc.metadata().status(),
        ticket_tracker::metadata::Status::InProgress
    );
}
