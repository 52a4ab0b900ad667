use std::marker::PhantomData;

use vstd::prelude::*;

use crate::sql::select_rows_sql;
use crate::sql_table::SqlTable;
use vstd::string::StringExecFns;

verus! {

/// The builder of a `SELECT` statement over the table of `T`.
#[derive(Debug)]
pub struct SelectRowsBuilder<T> {
    raw_where_clause: Option<String>,
    _marker: PhantomData<T>,
}

impl<T: SqlTable> SelectRowsBuilder<T> {
    /// The `WHERE` fragment, if one was given.
    pub closed spec fn where_clause(&self) -> Option<Seq<char>> {
        match self.raw_where_clause {
            Some(w) => Some(w@),
            None => None,
        }
    }

    /// A builder that selects every row.
    pub fn new() -> (r: Self)
        ensures
            r.where_clause() == None::<Seq<char>>,
    {
        SelectRowsBuilder { raw_where_clause: None, _marker: PhantomData }
    }

    /// The same builder, selecting the rows that the fragment admits. The
    /// fragment is inserted as it is, neither parsed nor escaped: it must not
    /// come from untrusted input.
    pub fn filter_raw(self, raw_where_clause: &str) -> (r: Self)
        ensures
            r.where_clause() == Some(raw_where_clause@),
    {
        SelectRowsBuilder { raw_where_clause: Some(raw_where_clause.to_owned()), _marker: PhantomData }
    }

    /// The statement's text.
    pub fn build_sql(&self) -> (r: String)
        ensures
            r@ == select_rows_sql(T::spec_table_info(), self.where_clause()),
    {
        let info = T::table_info();
        let mut out = String::from_str("SELECT * FROM ");
        out.append(info.table_name);
        if let Some(w) = &self.raw_where_clause {
            let ghost before = out@;
            out.append(" WHERE ");
            out.append(w.as_str());
            assert(out@ =~= before + (" WHERE "@ + w@));
        } else {
            assert(out@ =~= out@ + seq![]);
        }
        out
    }
}

} // verus!
