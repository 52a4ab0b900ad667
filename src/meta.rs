use vstd::prelude::*;

use crate::column::Column;
use crate::sql_types::SqlType;
use crate::table_info::{SchemaError, TableInfo};
use crate::text::str_eq;

verus! {

/// SQL metadata of a column.
#[derive(Clone, Copy, Debug)]
pub struct SqlExtraColumnInfo {
    /// The data type of the column, e.g. `TEXT` or `INTEGER`.
    pub data_type: &'static str,
    /// Whether this column is the primary key.
    pub is_primary: bool,
    /// Whether the database assigns this column's value on insert.
    pub is_auto_increment: bool,
    /// Whether values of this column are unique.
    pub is_unique: bool,
    /// Whether this column rejects `NULL`.
    pub is_not_null: bool,
    /// The column of another table that this one refers to, if any.
    pub reference: Option<Reference>,
}

/// A foreign key: the target table and the target column in it.
///
/// The target column is held by identity: the handle of its table and its
/// column name, which together pick out exactly one column.
#[derive(Clone, Copy, Debug)]
pub struct Reference {
    /// Handle of the target table.
    pub table_id: u64,
    /// Name of the target table.
    pub table_name: &'static str,
    /// Column name of the target column.
    pub column_name: &'static str,
}

/// The descriptor of a table mapped to SQL storage.
pub type SqlTableInfo = TableInfo<(), SqlExtraColumnInfo>;

/// The descriptor of a column mapped to SQL storage.
pub type SqlColumnInfo = Column<SqlExtraColumnInfo>;

impl SqlExtraColumnInfo {
    /// Metadata of a column that stores values of `T`: its data type is the
    /// SQL type of `T`, and it is `NOT NULL` unless `T` is nullable.
    pub fn for_type<T: SqlType>(
        is_primary: bool,
        is_auto_increment: bool,
        is_unique: bool,
        reference: Option<Reference>,
    ) -> (r: Self)
        ensures
            r.data_type@ == T::spec_sql_type_name(),
            r.is_not_null == !T::spec_is_nullable(),
            r.is_primary == is_primary,
            r.is_auto_increment == is_auto_increment,
            r.is_unique == is_unique,
            r.reference == reference,
    {
        SqlExtraColumnInfo {
            data_type: T::sql_type_name(),
            is_primary,
            is_auto_increment,
            is_unique,
            is_not_null: !T::is_nullable(),
            reference,
        }
    }
}

/// A reference points at exactly one column: once it points at `target`,
/// it points at another descriptor exactly when that descriptor denotes the
/// same column, so never at a column of another table, however alike.
pub proof fn lemma_reference_identity(r: Reference, target: SqlColumnInfo, other: SqlColumnInfo)
    requires
        r.spec_points_to(target),
    ensures
        r.spec_points_to(other) <==> other.same_column(target),
{
}

impl Reference {
    /// Whether this reference targets `column`, by identity.
    pub open spec fn spec_points_to(self, column: SqlColumnInfo) -> bool {
        self.table_id == column.table_id && self.column_name@ == column.column_name@
    }

    /// A reference to `column` of `table`, if `column` is one of its columns.
    pub fn new(table: &SqlTableInfo, column: &SqlColumnInfo) -> (r: Option<Reference>)
        requires
            table.wf(),
        ensures
            r is Some <==> table.spec_has_column(*column),
            r matches Some(x) ==> x.table_id == table.id && x.table_name == table.table_name
                && x.spec_points_to(*column),
    {
        if table.has_column(column) {
            Some(
                Reference {
                    table_id: table.id,
                    table_name: table.table_name,
                    column_name: column.column_name,
                },
            )
        } else {
            None
        }
    }

    /// The foreign key of a column declaration, which names both a target
    /// table and a target column, or neither.
    pub fn from_parts(table: Option<&SqlTableInfo>, column: Option<&SqlColumnInfo>) -> (r: Result<
        Option<Reference>,
        SchemaError,
    >)
        requires
            table matches Some(t) ==> t.wf(),
        ensures
            match (table, column) {
                (None, None) => r == Ok::<Option<Reference>, SchemaError>(None),
                (Some(t), Some(c)) => if t.spec_has_column(*c) {
                    r matches Ok(Some(x)) && x.table_id == t.id && x.table_name == t.table_name
                        && x.spec_points_to(*c)
                } else {
                    r == Err::<Option<Reference>, SchemaError>(SchemaError::MissingReferenceColumn)
                },
                _ => r == Err::<Option<Reference>, SchemaError>(SchemaError::PartialReference),
            },
    {
        match (table, column) {
            (None, None) => Ok(None),
            (Some(t), Some(c)) => match Reference::new(t, c) {
                Some(x) => Ok(Some(x)),
                None => Err(SchemaError::MissingReferenceColumn),
            },
            _ => Err(SchemaError::PartialReference),
        }
    }

    /// Whether this reference targets `column`, by identity.
    pub fn points_to(&self, column: &SqlColumnInfo) -> (r: bool)
        ensures
            r == self.spec_points_to(*column),
    {
        self.table_id == column.table_id && str_eq(self.column_name, column.column_name)
    }
}

} // verus!
