//! An in-memory user directory: records with a role, lookup by identifier,
//! role-based filtering, and human-readable display strings.

pub mod directory;
pub mod error;
pub mod user;
