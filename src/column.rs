use vstd::prelude::*;

use crate::text::str_eq;

verus! {

/// Metadata of one mapped field of a record.
///
/// A column is identified by the handle of the table that owns it together
/// with its column name, which is unique within that table. Two descriptors
/// with the same handle and name denote the same column; descriptors of
/// different tables never do, however alike their other fields are.
#[derive(Clone, Copy, Debug)]
pub struct Column<ExtraColumnInfo> {
    /// Handle of the table that owns this column.
    pub table_id: u64,
    /// The name of the column in the database table.
    pub column_name: &'static str,
    /// The name of the corresponding field in the record.
    pub field_name: &'static str,
    /// The byte offset of the field within the record.
    pub offset: usize,
    /// The size in bytes of the field.
    pub size: usize,
    /// Extra information about the column.
    pub extra: ExtraColumnInfo,
}

impl<ExtraColumnInfo> Column<ExtraColumnInfo> {
    /// Whether `self` and `other` denote the same column.
    pub open spec fn same_column(self, other: Column<ExtraColumnInfo>) -> bool {
        self.table_id == other.table_id && self.column_name@ == other.column_name@
    }

    /// A column of table `table_id`; its column name is `column_name` when
    /// given, and the field name otherwise.
    pub fn new(
        table_id: u64,
        column_name: Option<&'static str>,
        field_name: &'static str,
        offset: usize,
        size: usize,
        extra: ExtraColumnInfo,
    ) -> (r: Self)
        ensures
            r.table_id == table_id,
            r.column_name == (match column_name {
                Some(n) => n,
                None => field_name,
            }),
            r.field_name == field_name,
            r.offset == offset,
            r.size == size,
            r.extra == extra,
    {
        let name = match column_name {
            Some(n) => n,
            None => field_name,
        };
        Column { table_id, column_name: name, field_name, offset, size, extra }
    }

    /// Whether `self` and `other` denote the same column.
    pub fn is_same_column(&self, other: &Column<ExtraColumnInfo>) -> (r: bool)
        ensures
            r == self.same_column(*other),
    {
        self.table_id == other.table_id && str_eq(self.column_name, other.column_name)
    }
}

} // verus!
