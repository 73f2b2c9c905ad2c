//! The storage layer and the rules of a laser-cutter login service: records stored as rows
//! of sqlite tables, a query builder, the sessions of logged-in users and the state of the
//! laser (who holds it, and the log of that use).

pub mod db_object;
pub mod login_users;
pub mod model;
pub mod persistence_provider;
pub mod placeholders;
pub mod query;
pub mod sql_object;
pub mod sql_types;
pub mod sql_value;
pub mod sqlite_open;
pub mod text;

pub use db_object::{DbObject, SaveAction};
pub use login_users::{AdminUser, NormalUser};
pub use persistence_provider::{Persistence, PersistenceError, PersistenceProvider};
pub use query::{Query, SortOrder};
pub use sql_object::SqlObject;
pub use sql_types::{SqlType, SqlTyped};
pub use sql_value::{SqlStatement, SqlValue};
