use std::marker::PhantomData;

use vstd::prelude::*;

use crate::sql::drop_table_sql;
use crate::sql_table::SqlTable;
use vstd::string::StringExecFns;

verus! {

/// The builder of a `DROP TABLE` statement for the table of `T`.
#[derive(Debug)]
pub struct DropTableBuilder<T> {
    drop_if_exists: bool,
    _marker: PhantomData<T>,
}

impl<T: SqlTable> DropTableBuilder<T> {
    /// Whether the statement is `DROP TABLE IF EXISTS`.
    pub closed spec fn drops_if_exists(&self) -> bool {
        self.drop_if_exists
    }

    /// A builder of a plain `DROP TABLE`.
    pub fn new() -> (r: Self)
        ensures
            !r.drops_if_exists(),
    {
        DropTableBuilder { drop_if_exists: false, _marker: PhantomData }
    }

    /// The same builder, dropping the table only if it exists.
    pub fn drop_if_exists(self) -> (r: Self)
        ensures
            r.drops_if_exists(),
    {
        DropTableBuilder { drop_if_exists: true, _marker: PhantomData }
    }

    /// The statement's text.
    pub fn build_sql(&self) -> (r: String)
        ensures
            r@ == drop_table_sql(T::spec_table_info(), self.drops_if_exists()),
    {
        let info = T::table_info();
        let mut out = String::from_str("DROP TABLE ");
        if self.drop_if_exists {
            out.append("IF EXISTS ");
        }
        out.append(info.table_name);
        out
    }
}

} // verus!
