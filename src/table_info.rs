use vstd::prelude::*;

use crate::column::Column;
use crate::text::str_eq;

verus! {

/// Why a table descriptor could not be built.
#[derive(Clone, Copy, Debug, PartialEq, Eq)]
pub enum SchemaError {
    /// A column given for the table belongs to another table.
    ForeignColumn(&'static str),
    /// Two columns of the table have this column name.
    DuplicateColumn(&'static str),
    /// A foreign key names its target table without a target column, or
    /// the other way round.
    PartialReference,
    /// A foreign key names a target column that its target table lacks.
    MissingReferenceColumn,
}

/// Whether every column is owned by the table with handle `id`.
pub open spec fn all_owned_by<C>(columns: Seq<Column<C>>, id: u64) -> bool {
    forall|i: int| 0 <= i < columns.len() ==> (#[trigger] columns[i]).table_id == id
}

/// Whether the column names are pairwise distinct.
pub open spec fn names_distinct<C>(columns: Seq<Column<C>>) -> bool {
    forall|i: int, j: int|
        0 <= i < j < columns.len() ==> (#[trigger] columns[i]).column_name@
            != (#[trigger] columns[j]).column_name@
}

/// The metadata of one record type.
#[derive(Clone, Debug)]
pub struct TableInfo<ExtraTableInfo, ExtraColumnInfo> {
    /// The handle that identifies this table.
    pub id: u64,
    /// The table name.
    pub table_name: &'static str,
    /// The column definitions, in declaration order.
    pub columns: Vec<Column<ExtraColumnInfo>>,
    /// Extra information about the table.
    pub extra: ExtraTableInfo,
}

/// No two columns of a well-formed table share a column name.
pub proof fn lemma_column_names_unique<T, C>(t: TableInfo<T, C>, i: int, j: int)
    requires
        t.wf(),
        0 <= i < t.columns@.len(),
        0 <= j < t.columns@.len(),
        i != j,
    ensures
        t.columns@[i].column_name@ != t.columns@[j].column_name@,
{
    if i > j {
        assert(t.columns@[j].column_name@ != t.columns@[i].column_name@);
    }
}

impl<ExtraTableInfo, ExtraColumnInfo> TableInfo<ExtraTableInfo, ExtraColumnInfo> {
    /// Every column belongs to this table and no column name occurs twice.
    pub open spec fn wf(&self) -> bool {
        &&& all_owned_by(self.columns@, self.id)
        &&& names_distinct(self.columns@)
    }

    /// Whether `column` is one of this table's columns.
    pub open spec fn spec_has_column(&self, column: Column<ExtraColumnInfo>) -> bool {
        exists|i: int|
            0 <= i < self.columns@.len() && (#[trigger] self.columns@[i]).same_column(column)
    }

    /// The descriptor of table `id` with the given columns, or the first
    /// reason found why they cannot form one: a column owned by another
    /// table, then a column name given twice.
    pub fn new(
        id: u64,
        table_name: &'static str,
        columns: Vec<Column<ExtraColumnInfo>>,
        extra: ExtraTableInfo,
    ) -> (r: Result<Self, SchemaError>)
        ensures
            r is Ok <==> all_owned_by(columns@, id) && names_distinct(columns@),
            r matches Ok(t) ==> t.id == id && t.table_name == table_name && t.columns == columns
                && t.extra == extra && t.wf(),
            r matches Err(e) ==> match e {
                SchemaError::ForeignColumn(name) => exists|i: int|
                    0 <= i < columns@.len() && columns@[i].table_id != id
                        && columns@[i].column_name == name,
                SchemaError::DuplicateColumn(name) => all_owned_by(columns@, id) && exists|
                    i: int,
                    j: int,
                | 0 <= i < j < columns@.len() && columns@[i].column_name@ == name@
                    && columns@[j].column_name@ == name@,
                _ => false,
            },
    {
        let n = columns.len();
        for k in 0..n
            invariant
                n == columns@.len(),
                forall|i: int| 0 <= i < k ==> (#[trigger] columns@[i]).table_id == id,
        {
            if columns[k].table_id != id {
                return Err(SchemaError::ForeignColumn(columns[k].column_name));
            }
        }
        for j in 0..n
            invariant
                n == columns@.len(),
                all_owned_by(columns@, id),
                forall|a: int, b: int|
                    0 <= a < b < j ==> (#[trigger] columns@[a]).column_name@
                        != (#[trigger] columns@[b]).column_name@,
        {
            for i in 0..j
                invariant
                    n == columns@.len(),
                    j < n,
                    all_owned_by(columns@, id),
                    forall|a: int, b: int|
                        0 <= a < b < j ==> (#[trigger] columns@[a]).column_name@
                            != (#[trigger] columns@[b]).column_name@,
                    forall|a: int| 0 <= a < i ==> (#[trigger] columns@[a]).column_name@
                        != columns@[j as int].column_name@,
            {
                if str_eq(columns[i].column_name, columns[j].column_name) {
                    assert(columns@[i as int].column_name@ == columns@[j as int].column_name@);
                    return Err(SchemaError::DuplicateColumn(columns[j].column_name));
                }
            }
        }
        Ok(TableInfo { id, table_name, columns, extra })
    }

    /// Whether `column` is one of this table's columns, by identity.
    pub fn has_column(&self, column: &Column<ExtraColumnInfo>) -> (r: bool)
        ensures
            r == self.spec_has_column(*column),
    {
        let n = self.columns.len();
        for i in 0..n
            invariant
                n == self.columns@.len(),
                forall|k: int| 0 <= k < i ==> !(#[trigger] self.columns@[k]).same_column(*column),
        {
            if self.columns[i].is_same_column(column) {
                return true;
            }
        }
        false
    }

    /// The column with this column name, if the table has one.
    pub fn column_by_column_name(&self, name: &str) -> (r: Option<&Column<ExtraColumnInfo>>)
        ensures
            match r {
                Some(c) => exists|i: int|
                    0 <= i < self.columns@.len() && self.columns@[i] == *c && c.column_name@ == name@,
                None => forall|i: int|
                    0 <= i < self.columns@.len() ==> (#[trigger] self.columns@[i]).column_name@
                        != name@,
            },
    {
        let n = self.columns.len();
        for i in 0..n
            invariant
                n == self.columns@.len(),
                forall|k: int| 0 <= k < i ==> (#[trigger] self.columns@[k]).column_name@ != name@,
        {
            if str_eq(self.columns[i].column_name, name) {
                return Some(&self.columns[i]);
            }
        }
        None
    }

    /// The first column mapped to the record field `name`, if any.
    pub fn column_by_field_name(&self, name: &str) -> (r: Option<&Column<ExtraColumnInfo>>)
        ensures
            match r {
                Some(c) => exists|i: int|
                    0 <= i < self.columns@.len() && self.columns@[i] == *c && c.field_name@ == name@,
                None => forall|i: int|
                    0 <= i < self.columns@.len() ==> (#[trigger] self.columns@[i]).field_name@
                        != name@,
            },
    {
        let n = self.columns.len();
        for i in 0..n
            invariant
                n == self.columns@.len(),
                forall|k: int| 0 <= k < i ==> (#[trigger] self.columns@[k]).field_name@ != name@,
        {
            if str_eq(self.columns[i].field_name, name) {
                return Some(&self.columns[i]);
            }
        }
        None
    }
}

} // verus!
