//! Durable personal context for an assistant: decisions, goals, preferences,
//! known issues and contextual todos, with the row encoding that maps each of
//! them onto a relational table and back.
//!
//! The engine that runs statements stands outside this crate: the library
//! builds every value a statement binds, and interprets every answer the
//! engine gives (rows, or a count of affected rows). Deletes are hard deletes
//! for every kind; decisions also carry their own archived and superseded
//! states. No store operation writes an audit entry by itself: callers that
//! keep a trail create [`audit::UserContextAuditEntry`] values alongside their
//! mutations, without atomicity between the two.

pub mod text;
pub mod codes;
pub mod scope;
pub mod clock;
pub mod ident;
pub mod json;
pub mod row;
pub mod rank;
pub mod decision;
pub mod issue;
pub mod priority;
pub mod goal;
pub mod preference;
pub mod todo;
pub mod audit;
pub mod tools;
