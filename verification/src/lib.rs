//! The verified core of an object mapper for a wide-column database.
//!
//! Its main part decides schema migrations: which structural changes between
//! the live and the declared shape of a table, a user-defined type or a
//! materialized view may be applied, in which order, and which ones must stop
//! the run ([`schema`], [`diff`], [`migration_unit`], [`progress`],
//! [`report`], [`laws`]). Beside it stand the order of a delete that is
//! wrapped in callbacks ([`delete`]) and the texts of the generated query
//! helpers ([`find`]).

pub mod delete;
pub mod diff;
pub mod find;
pub mod laws;
pub mod migration_unit;
pub mod progress;
pub mod report;
pub mod schema;
