use vstd::prelude::*;

use crate::meta::{SqlColumnInfo, SqlTableInfo};
use crate::table_info::{lemma_column_names_unique, SchemaError, TableInfo};

verus! {

/// The tables of a program, each under the handle that was issued when it
/// was registered: handles count up from zero, so no two tables share one.
#[derive(Debug)]
pub struct Schema {
    tables: Vec<SqlTableInfo>,
}

impl Schema {
    /// The registered tables, in order of registration.
    pub closed spec fn tables(&self) -> Seq<SqlTableInfo> {
        self.tables@
    }

    /// Each table is well formed and registered under its position.
    pub open spec fn wf(&self) -> bool {
        forall|i: int|
            0 <= i < self.tables().len() ==> (#[trigger] self.tables()[i]).id == i
                && self.tables()[i].wf()
    }

    /// A schema without tables.
    pub fn new() -> (r: Self)
        ensures
            r.wf(),
            r.tables() == Seq::<SqlTableInfo>::empty(),
    {
        Schema { tables: Vec::new() }
    }

    /// The handle that the next registered table receives.
    pub fn next_id(&self) -> (r: u64)
        requires
            self.tables().len() <= u64::MAX,
        ensures
            r == self.tables().len(),
    {
        self.tables.len() as u64
    }

    /// Registers a table under the next handle, which its columns must
    /// already name as their owner; on an error the schema is unchanged.
    pub fn register(&mut self, table_name: &'static str, columns: Vec<SqlColumnInfo>) -> (r: Result<
        u64,
        SchemaError,
    >)
        requires
            old(self).wf(),
            old(self).tables().len() < u64::MAX,
        ensures
            final(self).wf(),
            match r {
                Ok(id) => id == old(self).tables().len() && final(self).tables() == old(
                    self,
                ).tables().push(TableInfo { id, table_name, columns, extra: () }),
                Err(_) => final(self).tables() == old(self).tables(),
            },
            r is Ok <==> crate::table_info::all_owned_by(columns@, old(self).tables().len() as u64)
                && crate::table_info::names_distinct(columns@),
    {
        let id = self.tables.len() as u64;
        match TableInfo::new(id, table_name, columns, ()) {
            Ok(t) => {
                self.tables.push(t);
                Ok(id)
            },
            Err(e) => Err(e),
        }
    }

    /// The table registered under `id`, if any.
    pub fn table(&self, id: u64) -> (r: Option<&SqlTableInfo>)
        ensures
            match r {
                Some(t) => id < self.tables().len() && *t == self.tables()[id as int],
                None => id >= self.tables().len(),
            },
    {
        if id < self.tables.len() as u64 {
            Some(&self.tables[id as usize])
        } else {
            None
        }
    }
}

/// Distinct columns of a schema are distinct by identity: a column of one
/// registered table is never the same column as another column of that
/// table, nor as any column of another registered table.
pub proof fn lemma_registered_columns_distinct(s: Schema, i: int, a: int, j: int, b: int)
    requires
        s.wf(),
        0 <= i < s.tables().len(),
        0 <= j < s.tables().len(),
        0 <= a < s.tables()[i].columns@.len(),
        0 <= b < s.tables()[j].columns@.len(),
        i != j || a != b,
    ensures
        !s.tables()[i].columns@[a].same_column(s.tables()[j].columns@[b]),
{
    let ti = s.tables()[i];
    let tj = s.tables()[j];
    assert(ti.columns@[a].table_id == ti.id);
    assert(tj.columns@[b].table_id == tj.id);
    if i == j {
        lemma_column_names_unique(ti, a, b);
    }
}

} // verus!
