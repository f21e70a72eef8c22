//! Core model of a small office ticket tracker: a compact permission
//! encoding, the ticket status state machine, the metadata audit trail,
//! the role-based access decision, and the persistence ordering that the
//! document aggregate must respect.

pub mod access;
pub mod category;
pub mod clock;
pub mod comment;
pub mod db;
pub mod document;
pub mod errors;
pub mod hash;
pub mod metadata;
pub mod permission;
pub mod user;
