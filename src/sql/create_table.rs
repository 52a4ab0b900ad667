use std::marker::PhantomData;

use vstd::prelude::*;

use crate::meta::{Reference, SqlColumnInfo};
use crate::sql::{
    column_def_sql, create_table_sql, join, lemma_join_push, reference_sql, word_if,
};
use crate::sql_table::SqlTable;
use vstd::string::StringExecFns;

verus! {

/// Appends `word` preceded by a space where `present` holds.
fn append_word_if(out: &mut String, present: bool, word: &str)
    ensures
        final(out)@ == old(out)@ + word_if(present, word@),
{
    if present {
        let ghost before = out@;
        out.append(" ");
        out.append(word);
        assert(final(out)@ =~= before + (" "@ + word@)) by {
            assert(out@ =~= before + " "@ + word@);
        }
    }
}

/// Appends the foreign key clause of a column definition.
fn append_reference(out: &mut String, reference: Option<Reference>)
    ensures
        final(out)@ == old(out)@ + reference_sql(reference),
{
    if let Some(r) = reference {
        let ghost before = out@;
        out.append(" REFERENCES ");
        out.append(r.table_name);
        out.append("(");
        out.append(r.column_name);
        out.append(")");
        assert(out@ =~= before + reference_sql(reference));
    } else {
        assert(out@ =~= out@ + reference_sql(reference));
    }
}

/// Renders the definition of one column in `CREATE TABLE`.
fn column_def(c: &SqlColumnInfo) -> (r: String)
    ensures
        r@ == column_def_sql(*c),
{
    let mut out = String::from_str(c.column_name);
    append_word_if(&mut out, !c.extra.data_type.is_empty(), c.extra.data_type);
    append_word_if(&mut out, c.extra.is_primary, "PRIMARY KEY");
    append_word_if(&mut out, c.extra.is_auto_increment, "AUTOINCREMENT");
    append_word_if(&mut out, c.extra.is_unique, "UNIQUE");
    append_word_if(&mut out, c.extra.is_not_null, "NOT NULL");
    append_reference(&mut out, c.extra.reference);
    out
}

/// The builder of a `CREATE TABLE` statement for the table of `T`.
#[derive(Debug)]
pub struct CreateTableBuilder<T> {
    create_if_not_exists: bool,
    _marker: PhantomData<T>,
}

impl<T: SqlTable> CreateTableBuilder<T> {
    /// Whether the statement is `CREATE TABLE IF NOT EXISTS`.
    pub closed spec fn creates_if_not_exists(&self) -> bool {
        self.create_if_not_exists
    }

    /// A builder of a plain `CREATE TABLE`.
    pub fn new() -> (r: Self)
        ensures
            !r.creates_if_not_exists(),
    {
        CreateTableBuilder { create_if_not_exists: false, _marker: PhantomData }
    }

    /// The same builder, creating the table only if it does not exist.
    pub fn create_if_not_exists(self) -> (r: Self)
        ensures
            r.creates_if_not_exists(),
    {
        CreateTableBuilder { create_if_not_exists: true, _marker: PhantomData }
    }

    /// The statement's text.
    pub fn build_sql(&self) -> (r: String)
        ensures
            r@ == create_table_sql(T::spec_table_info(), self.creates_if_not_exists()),
    {
        let info = T::table_info();
        let mut out = String::from_str("CREATE TABLE ");
        if self.create_if_not_exists {
            out.append("IF NOT EXISTS ");
        }
        out.append(info.table_name);
        out.append(" (");
        let ghost defs = info.columns@.map_values(|c: SqlColumnInfo| column_def_sql(c));
        let mut list = String::new();
        let n = info.columns.len();
        for i in 0..n
            invariant
                n == info.columns@.len(),
                defs == info.columns@.map_values(|c: SqlColumnInfo| column_def_sql(c)),
                list@ == join(defs.subrange(0, i as int), ", "@),
        {
            if i > 0 {
                list.append(", ");
            }
            let def = column_def(&info.columns[i]);
            list.append(def.as_str());
            proof {
                lemma_join_push(defs.subrange(0, i as int), ", "@, defs[i as int]);
                assert(defs.subrange(0, i as int).push(defs[i as int]) =~= defs.subrange(
                    0,
                    i + 1,
                ));
            }
        }
        assert(defs.subrange(0, n as int) =~= defs);
        out.append(list.as_str());
        out.append(")");
        out
    }
}

} // verus!
