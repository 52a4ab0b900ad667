//! Builders of SQL statements for a table.
//!
//! Each statement is rendered with single spaces between words, and no
//! space is left where an optional clause is absent; list items are
//! separated by `", "`. For example:
//! `CREATE TABLE user_info (id INTEGER PRIMARY KEY AUTOINCREMENT NOT NULL, user_name TEXT NOT NULL)`.

use vstd::prelude::*;

use crate::conflict::{conflict_keyword, Conflict};
use crate::meta::{Reference, SqlColumnInfo, SqlTableInfo};
use crate::sql_table::SqlTable;

mod create_table;
mod drop_table;
mod insert_row;
mod returning_row;
mod select_rows;

pub use create_table::CreateTableBuilder;
pub use drop_table::DropTableBuilder;
pub use insert_row::InsertRowBuilder;
pub use returning_row::{single_row, ReturningRowBuilder, RowError};
pub use select_rows::SelectRowsBuilder;

verus! {

/// The parts, in order, with `sep` between each two of them.
pub open spec fn join(parts: Seq<Seq<char>>, sep: Seq<char>) -> Seq<char>
    decreases parts.len(),
{
    if parts.len() == 0 {
        seq![]
    } else if parts.len() == 1 {
        parts[0]
    } else {
        join(parts.drop_last(), sep) + sep + parts.last()
    }
}

/// Appending one part to a joined list.
pub proof fn lemma_join_push(parts: Seq<Seq<char>>, sep: Seq<char>, part: Seq<char>)
    ensures
        join(parts.push(part), sep) == if parts.len() == 0 {
            part
        } else {
            join(parts, sep) + sep + part
        },
{
    assert(parts.push(part).drop_last() =~= parts);
}

/// `word` preceded by a space where `present` holds, and nothing otherwise.
pub open spec fn word_if(present: bool, word: Seq<char>) -> Seq<char> {
    if present {
        " "@ + word
    } else {
        seq![]
    }
}

/// The definition of a column in `CREATE TABLE`: its name, its data type
/// unless that is empty, then `PRIMARY KEY`, `AUTOINCREMENT`, `UNIQUE` and
/// `NOT NULL` where the column has them, and its foreign key.
pub open spec fn column_def_sql(c: SqlColumnInfo) -> Seq<char> {
    c.column_name@
        + word_if(c.extra.data_type@.len() != 0, c.extra.data_type@)
        + word_if(c.extra.is_primary, "PRIMARY KEY"@)
        + word_if(c.extra.is_auto_increment, "AUTOINCREMENT"@)
        + word_if(c.extra.is_unique, "UNIQUE"@)
        + word_if(c.extra.is_not_null, "NOT NULL"@)
        + reference_sql(c.extra.reference)
}

/// The foreign key clause of a column definition, `REFERENCES <table>(<column>)`
/// preceded by a space, or nothing for a column without one.
pub open spec fn reference_sql(reference: Option<Reference>) -> Seq<char> {
    match reference {
        Some(r) => " REFERENCES "@ + r.table_name@ + "("@ + r.column_name@ + ")"@,
        None => seq![],
    }
}

/// `CREATE TABLE [IF NOT EXISTS] <table> (<column definitions>)`.
pub open spec fn create_table_sql(t: SqlTableInfo, if_not_exists: bool) -> Seq<char> {
    "CREATE TABLE "@ + (if if_not_exists {
        "IF NOT EXISTS "@
    } else {
        seq![]
    }) + t.table_name@ + " ("@ + join(
        t.columns@.map_values(|c: SqlColumnInfo| column_def_sql(c)),
        ", "@,
    ) + ")"@
}

/// `DROP TABLE [IF EXISTS] <table>`.
pub open spec fn drop_table_sql(t: SqlTableInfo, if_exists: bool) -> Seq<char> {
    "DROP TABLE "@ + (if if_exists {
        "IF EXISTS "@
    } else {
        seq![]
    }) + t.table_name@
}

/// Whether an `INSERT` sends column `c`: every column does, except that
/// auto-increment columns are left to the database when
/// `with_auto_increment` is set.
pub open spec fn is_inserted(c: SqlColumnInfo, with_auto_increment: bool) -> bool {
    !(with_auto_increment && c.extra.is_auto_increment)
}

/// The columns that an `INSERT` sends, in declaration order.
pub open spec fn inserted_columns(columns: Seq<SqlColumnInfo>, with_auto_increment: bool) -> Seq<
    SqlColumnInfo,
> {
    columns.filter(|c: SqlColumnInfo| is_inserted(c, with_auto_increment))
}

/// The named placeholder of a column's value: its field name after a colon.
pub open spec fn placeholder(c: SqlColumnInfo) -> Seq<char> {
    ":"@ + c.field_name@
}

/// ` OR <policy>` for a conflict policy, or nothing without one.
pub open spec fn conflict_sql(conflict: Option<Conflict>) -> Seq<char> {
    match conflict {
        Some(c) => " OR "@ + conflict_keyword(c),
        None => seq![],
    }
}

/// `INSERT [OR <policy>] INTO <table> (<columns>) VALUES (<placeholders>)`,
/// over the columns that the insert sends.
pub open spec fn insert_row_sql(
    t: SqlTableInfo,
    conflict: Option<Conflict>,
    with_auto_increment: bool,
) -> Seq<char> {
    let cols = inserted_columns(t.columns@, with_auto_increment);
    "INSERT"@ + conflict_sql(conflict) + " INTO "@ + t.table_name@ + " ("@ + join(
        cols.map_values(|c: SqlColumnInfo| c.column_name@),
        ", "@,
    ) + ") VALUES ("@ + join(cols.map_values(|c: SqlColumnInfo| placeholder(c)), ", "@) + ")"@
}

/// Whether an `INSERT` binds the parameter named `key`: it binds every
/// parameter but the placeholders of the columns that it does not send.
pub open spec fn insert_binds(t: SqlTableInfo, with_auto_increment: bool, key: Seq<char>) -> bool {
    !exists|i: int|
        0 <= i < t.columns@.len() && !is_inserted(t.columns@[i], with_auto_increment) && key
            == placeholder(#[trigger] t.columns@[i])
}

/// The insert statement followed by ` RETURNING *`.
pub open spec fn returning_row_sql(
    t: SqlTableInfo,
    conflict: Option<Conflict>,
    with_auto_increment: bool,
) -> Seq<char> {
    insert_row_sql(t, conflict, with_auto_increment) + " RETURNING *"@
}

/// `SELECT * FROM <table> [WHERE <fragment>]`, the fragment taken verbatim.
pub open spec fn select_rows_sql(t: SqlTableInfo, where_clause: Option<Seq<char>>) -> Seq<char> {
    "SELECT * FROM "@ + t.table_name@ + match where_clause {
        Some(w) => " WHERE "@ + w,
        None => seq![],
    }
}

/// The columns that an `INSERT` sends, grown by one declared column.
pub proof fn lemma_inserted_columns_step(
    columns: Seq<SqlColumnInfo>,
    with_auto_increment: bool,
    i: int,
)
    requires
        0 <= i < columns.len(),
    ensures
        inserted_columns(columns.subrange(0, i + 1), with_auto_increment) == if is_inserted(
            columns[i],
            with_auto_increment,
        ) {
            inserted_columns(columns.subrange(0, i), with_auto_increment).push(columns[i])
        } else {
            inserted_columns(columns.subrange(0, i), with_auto_increment)
        },
{
    reveal(Seq::filter);
    assert(columns.subrange(0, i + 1).drop_last() =~= columns.subrange(0, i));
}

/// The text of `CREATE TABLE` depends on the table and the option alone:
/// two renderings for the same table with the same option are equal.
pub proof fn lemma_create_table_deterministic(
    t: SqlTableInfo,
    if_not_exists: bool,
    first: Seq<char>,
    second: Seq<char>,
)
    requires
        first == create_table_sql(t, if_not_exists),
        second == create_table_sql(t, if_not_exists),
    ensures
        first == second,
{
}

/// Leaving auto-increment columns to the database: no column that an
/// `INSERT` sends is auto-increment, so none is in its column or
/// placeholder list, and the placeholder of each auto-increment column is
/// not bound.
pub proof fn lemma_auto_increment_excluded(t: SqlTableInfo, i: int)
    requires
        0 <= i < t.columns@.len(),
        t.columns@[i].extra.is_auto_increment,
    ensures
        forall|k: int|
            0 <= k < inserted_columns(t.columns@, true).len() ==> !(#[trigger] inserted_columns(
                t.columns@,
                true,
            )[k]).extra.is_auto_increment,
        !insert_binds(t, true, placeholder(t.columns@[i])),
{
    let pred = |c: SqlColumnInfo| is_inserted(c, true);
    assert forall|k: int| 0 <= k < inserted_columns(t.columns@, true).len() implies !(
    #[trigger] inserted_columns(t.columns@, true)[k]).extra.is_auto_increment by {
        t.columns@.lemma_filter_pred(pred, k);
    }
}

/// The builder of a `CREATE TABLE` statement for `T`.
pub fn create_table<T: SqlTable>() -> (r: CreateTableBuilder<T>)
    ensures
        !r.creates_if_not_exists(),
{
    CreateTableBuilder::new()
}

} // verus!

verus! {

/// The builder of a `DROP TABLE` statement for `T`.
pub fn drop_table<T: SqlTable>() -> (r: DropTableBuilder<T>)
    ensures
        !r.drops_if_exists(),
{
    DropTableBuilder::new()
}

/// The builder of an `INSERT` statement for `T`.
pub fn insert_row<T: SqlTable>() -> (r: InsertRowBuilder<T>)
    ensures
        r.conflict() == None::<Conflict>,
        !r.leaves_auto_increment(),
{
    InsertRowBuilder::new()
}

/// The builder of a `SELECT` statement for `T`.
pub fn select_rows<T: SqlTable>() -> (r: SelectRowsBuilder<T>)
    ensures
        r.where_clause() == None::<Seq<char>>,
{
    SelectRowsBuilder::new()
}

} // verus!
