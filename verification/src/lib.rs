//! Storage backend of a lightweight directory service: it compiles directory
//! filters into relational conditions, builds the statements that list and
//! change users, groups and memberships, and folds the rows that come back
//! into entities.

pub mod clock;
pub mod error;
pub mod expr;
pub mod filter;
pub mod groups;
pub mod handler;
pub mod model;
pub mod rows;
pub mod runs;
pub mod schema;
pub mod statement;
pub mod users;
