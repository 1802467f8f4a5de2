//! Translation of declarative table definitions into SQL data-definition
//! statements, and the decisions taken while those statements run.

pub mod crud;
pub mod schema;
