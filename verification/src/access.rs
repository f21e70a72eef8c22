//! The role-based authorization decision.
//!
//! An actor relates to a document as its author, its responsible user, or as
//! anyone else, compared by name.  An actor whose name matches both the
//! author and the responsible user counts as the author: the author row of
//! the grid takes precedence.  The superuser (named `root`) bypasses the
//! grid entirely.  The grid's `write` flag gates editing, its `comment` flag
//! gates commenting; the `read` flag is carried but not enforced anywhere
//! yet.

use vstd::prelude::*;

use crate::document::Document;
use crate::permission::NaivePermission;
use crate::user::User;

verus! {

/// How an actor relates to a document: one of the three grid rows.
#[derive(Debug, PartialEq, Eq, Structural, Copy, Clone)]
pub enum Role {
    Author,
    Responsible,
    Other,
}

/// The actor's role for a document, by name comparison, author first.
pub open spec fn spec_role_of(actor: &User, doc: &Document) -> Role {
    if actor.name@ == doc.metadata.author.name@ {
        Role::Author
    } else if actor.name@ == doc.responsible.name@ {
        Role::Responsible
    } else {
        Role::Other
    }
}

/// The grid row that judges the given role.
pub open spec fn role_permission(doc: &Document, role: Role) -> NaivePermission {
    match role {
        Role::Author => doc.permission.author,
        Role::Responsible => doc.permission.responsible,
        Role::Other => doc.permission.others,
    }
}

/// Whether the actor may edit the document's write-gated fields.
pub open spec fn spec_access_granted(actor: &User, doc: &Document) -> bool {
    actor.spec_is_root() || role_permission(doc, spec_role_of(actor, doc)).write
}

/// Whether the actor may add comments to the document.
pub open spec fn spec_comment_granted(actor: &User, doc: &Document) -> bool {
    actor.spec_is_root() || role_permission(doc, spec_role_of(actor, doc)).comment
}

/// The actor's role for a document, author precedence first.
pub fn role_of(actor: &User, doc: &Document) -> (r: Role)
    ensures
        r == spec_role_of(actor, doc),
{
    if actor.name == doc.metadata.author.name {
        Role::Author
    } else if actor.name == doc.responsible.name {
        Role::Responsible
    } else {
        Role::Other
    }
}

/// Decides whether `actor` may edit the document's write-gated fields
/// (name, author, category, status, expiry, permission, responsible):
/// unconditionally for the superuser, else by the `write` flag of the grid
/// row for the actor's role.
pub fn is_access_granted(actor: &User, doc: &Document) -> (r: bool)
    ensures
        r == spec_access_granted(actor, doc),
{
    if actor.is_root() {
        true
    } else {
        match role_of(actor, doc) {
            Role::Author => doc.permission.author.write,
            Role::Responsible => doc.permission.responsible.write,
            Role::Other => doc.permission.others.write,
        }
    }
}

/// Decides whether `actor` may add a comment to the document:
/// unconditionally for the superuser, else by the `comment` flag of the
/// grid row for the actor's role.
pub fn is_comment_granted(actor: &User, doc: &Document) -> (r: bool)
    ensures
        r == spec_comment_granted(actor, doc),
{
    if actor.is_root() {
        true
    } else {
        match role_of(actor, doc) {
            Role::Author => doc.permission.author.comment,
            Role::Responsible => doc.permission.responsible.comment,
            Role::Other => doc.permission.others.comment,
        }
    }
}

/// Root bypass: the superuser is granted edit and comment access to every
/// document, whatever its permission grid holds.
pub proof fn lemma_root_bypass(actor: &User, doc: &Document)
    requires
        actor.spec_is_root(),
    ensures
        spec_access_granted(actor, doc),
        spec_comment_granted(actor, doc),
{
}

/// Role routing: a non-root actor is judged by exactly the grid row of its
/// role — the author row when its name matches the document author's, else
/// the responsible row when its name matches the responsible user's, else
/// the others row — with `write` gating edits and `comment` gating comments.
pub proof fn lemma_role_routing(actor: &User, doc: &Document)
    requires
        !actor.spec_is_root(),
    ensures
        spec_access_granted(actor, doc) == role_permission(doc, spec_role_of(actor, doc)).write,
        spec_comment_granted(actor, doc) == role_permission(doc, spec_role_of(actor, doc)).comment,
        actor.name@ == doc.metadata.author.name@ ==> spec_role_of(actor, doc) == Role::Author,
        actor.name@ != doc.metadata.author.name@ && actor.name@ == doc.responsible.name@
            ==> spec_role_of(actor, doc) == Role::Responsible,
        actor.name@ != doc.metadata.author.name@ && actor.name@ != doc.responsible.name@
            ==> spec_role_of(actor, doc) == Role::Other,
{
}

} // verus!
