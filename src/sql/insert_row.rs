use std::marker::PhantomData;

use vstd::prelude::*;

use crate::conflict::Conflict;
use crate::meta::SqlColumnInfo;
use crate::sql::{
    conflict_sql, insert_binds, insert_row_sql, inserted_columns, is_inserted, join,
    lemma_inserted_columns_step, lemma_join_push, placeholder,
};
use crate::sql_table::SqlTable;
use crate::text::str_eq;
use vstd::string::StringExecFns;

verus! {

/// The builder of an `INSERT` statement for the table of `T`, whose values
/// are bound by name from a record.
#[derive(Debug)]
pub struct InsertRowBuilder<T> {
    conflict: Option<Conflict>,
    with_auto_increment: bool,
    _marker: PhantomData<T>,
}

impl<T: SqlTable> InsertRowBuilder<T> {
    /// The conflict policy, if one was chosen.
    pub closed spec fn conflict(&self) -> Option<Conflict> {
        self.conflict
    }

    /// Whether auto-increment columns are left for the database to assign.
    pub closed spec fn leaves_auto_increment(&self) -> bool {
        self.with_auto_increment
    }

    /// A builder of a plain `INSERT` that sends every column.
    pub fn new() -> (r: Self)
        ensures
            r.conflict() == None::<Conflict>,
            !r.leaves_auto_increment(),
    {
        InsertRowBuilder { conflict: None, with_auto_increment: false, _marker: PhantomData }
    }

    /// The same builder, with `INSERT OR <conflict>`.
    pub fn or(self, conflict: Conflict) -> (r: Self)
        ensures
            r.conflict() == Some(conflict),
            r.leaves_auto_increment() == self.leaves_auto_increment(),
    {
        InsertRowBuilder {
            conflict: Some(conflict),
            with_auto_increment: self.with_auto_increment,
            _marker: PhantomData,
        }
    }

    /// The same builder, leaving auto-increment columns for the database to
    /// assign: they are neither listed in the statement nor bound, whatever
    /// value the record holds for them.
    pub fn with_auto_increment(self) -> (r: Self)
        ensures
            r.conflict() == self.conflict(),
            r.leaves_auto_increment(),
    {
        InsertRowBuilder { conflict: self.conflict, with_auto_increment: true, _marker: PhantomData }
    }

    /// The statement's text.
    pub fn build_sql(&self) -> (r: String)
        ensures
            r@ == insert_row_sql(T::spec_table_info(), self.conflict(), self.leaves_auto_increment()),
    {
        let info = T::table_info();
        let w = self.with_auto_increment;
        let mut out = String::from_str("INSERT");
        if let Some(c) = self.conflict {
            let ghost before = out@;
            out.append(" OR ");
            out.append(c.keyword());
            assert(out@ =~= before + conflict_sql(self.conflict));
        } else {
            assert(out@ =~= out@ + conflict_sql(self.conflict));
        }
        out.append(" INTO ");
        out.append(info.table_name);
        out.append(" (");
        let ghost cols = info.columns@;
        let mut names = String::new();
        let mut placeholders = String::new();
        let mut count: usize = 0;
        let n = info.columns.len();
        for i in 0..n
            invariant
                n == cols.len(),
                cols == info.columns@,
                w == self.with_auto_increment,
                count == inserted_columns(cols.subrange(0, i as int), w).len(),
                count <= i,
                names@ == join(
                    inserted_columns(cols.subrange(0, i as int), w).map_values(
                        |c: SqlColumnInfo| c.column_name@,
                    ),
                    ", "@,
                ),
                placeholders@ == join(
                    inserted_columns(cols.subrange(0, i as int), w).map_values(
                        |c: SqlColumnInfo| placeholder(c),
                    ),
                    ", "@,
                ),
        {
            let c = &info.columns[i];
            let ghost kept = inserted_columns(cols.subrange(0, i as int), w);
            proof {
                lemma_inserted_columns_step(cols, w, i as int);
            }
            if !(w && c.extra.is_auto_increment) {
                if count > 0 {
                    names.append(", ");
                    placeholders.append(", ");
                }
                names.append(c.column_name);
                placeholders.append(":");
                placeholders.append(c.field_name);
                count = count + 1;
                proof {
                    let f = |c: SqlColumnInfo| c.column_name@;
                    let g = |c: SqlColumnInfo| placeholder(c);
                    lemma_join_push(kept.map_values(f), ", "@, f(*c));
                    lemma_join_push(kept.map_values(g), ", "@, g(*c));
                    assert(kept.push(*c).map_values(f) =~= kept.map_values(f).push(f(*c)));
                    assert(kept.push(*c).map_values(g) =~= kept.map_values(g).push(g(*c)));
                    assert(placeholders@ =~= join(kept.map_values(g), ", "@) + (if kept.len() == 0 {
                        seq![]
                    } else {
                        ", "@
                    }) + g(*c));
                }
            }
        }
        assert(cols.subrange(0, n as int) =~= cols);
        out.append(names.as_str());
        out.append(") VALUES (");
        out.append(placeholders.as_str());
        out.append(")");
        out
    }

    /// Whether the statement binds the parameter named `key`: every
    /// parameter is bound except the placeholders of columns left to the
    /// database.
    pub fn binds_parameter(&self, key: &str) -> (r: bool)
        ensures
            r == insert_binds(T::spec_table_info(), self.leaves_auto_increment(), key@),
    {
        let info = T::table_info();
        let w = self.with_auto_increment;
        let n = info.columns.len();
        for i in 0..n
            invariant
                n == info.columns@.len(),
                info == T::spec_table_info(),
                w == self.with_auto_increment,
                forall|k: int|
                    0 <= k < i ==> !(!is_inserted(info.columns@[k], w) && key@ == placeholder(
                        #[trigger] info.columns@[k],
                    )),
        {
            let c = &info.columns[i];
            if w && c.extra.is_auto_increment {
                let mut p = String::from_str(":");
                p.append(c.field_name);
                if str_eq(p.as_str(), key) {
                    assert(!is_inserted(info.columns@[i as int], w) && key@ == placeholder(
                        info.columns@[i as int],
                    ));
                    return false;
                }
            }
        }
        true
    }
}

} // verus!
