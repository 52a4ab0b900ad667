//! Table and column metadata for records mapped to relational storage, a
//! typed field accessor keyed by column, and builders that render the SQL
//! statements for a table.

mod column;
mod conflict;
mod field;
pub mod meta;
mod schema;
pub mod sql;
mod sql_table;
mod sql_types;
mod table;
mod table_info;
mod text;

pub use column::Column;
pub use conflict::{conflict_keyword, Conflict};
pub use field::{optional_text_view, FieldKind, FieldMut, FieldRef, FieldType, FieldValue};
pub use schema::{lemma_registered_columns_distinct, Schema};
pub use sql_table::SqlTable;
pub use sql_types::SqlType;
pub use table::{lemma_write_then_read, Table};
pub use table_info::{
    all_owned_by, lemma_column_names_unique, names_distinct, SchemaError, TableInfo,
};
pub use text::str_eq;
