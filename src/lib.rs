//! An object-relational mapping layer over a parameterized SQL driver: a
//! predicate tree rendered to SQL with its parameters in placeholder order,
//! a query builder, pagination and search, the statements of the CRUD
//! operations of a table, and the bookkeeping of schema migrations.
use vstd::prelude::*;

pub mod clock;
pub mod error;
pub mod value;
pub mod filter;
pub mod sql;
pub mod query;
pub mod pagination;
pub mod model;
pub mod migrations;
pub mod templates;
pub mod rows;

pub use error::OrmError;
pub use filter::{render, Condition, Filter, FilterOperator};
pub use migrations::{Migration, MigrationBuilder, Timestamp};
pub use model::{Column, TableSchema};
pub use pagination::{PaginatedResult, Pagination, SearchFilter};
pub use query::{QueryBuilder, Sort, SortOrder};
pub use rows::{LibsqlRow, LibsqlRows};
pub use sql::Statement;
pub use value::{blob_value, integer_value, null_value, real_value, text_value, LibsqlValue, Value};

verus! {

} // verus!
