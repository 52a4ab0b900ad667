use std::marker::PhantomData;

use vstd::prelude::*;

use crate::conflict::Conflict;
use crate::sql::insert_row::InsertRowBuilder;
use crate::sql::{insert_binds, returning_row_sql};
use crate::sql_table::SqlTable;
use vstd::string::StringExecFns;

verus! {

/// The builder of an `INSERT ... RETURNING *` statement for the table of
/// `T`, which yields the inserted row.
#[derive(Debug)]
pub struct ReturningRowBuilder<T> {
    insert_row_builder: InsertRowBuilder<T>,
    _marker: PhantomData<T>,
}

/// Why a statement that must yield exactly one row did not.
#[derive(Debug)]
pub enum RowError<E> {
    /// The database reported an error, passed on as it is.
    Engine(E),
    /// No row came back.
    NotFound,
    /// More than one row came back.
    MoreThanOne,
}

/// The single row of a result: `first` is the outcome of fetching and
/// decoding the first row, `more` that of asking whether another row
/// follows, which matters only when a first row came back.
pub fn single_row<R, E>(first: Result<Option<R>, E>, more: Result<bool, E>) -> (r: Result<
    R,
    RowError<E>,
>)
    ensures
        match first {
            Err(e) => r == Err::<R, RowError<E>>(RowError::Engine(e)),
            Ok(None) => r == Err::<R, RowError<E>>(RowError::NotFound),
            Ok(Some(row)) => match more {
                Err(e) => r == Err::<R, RowError<E>>(RowError::Engine(e)),
                Ok(true) => r == Err::<R, RowError<E>>(RowError::MoreThanOne),
                Ok(false) => r == Ok::<R, RowError<E>>(row),
            },
        },
{
    match first {
        Err(e) => Err(RowError::Engine(e)),
        Ok(None) => Err(RowError::NotFound),
        Ok(Some(row)) => match more {
            Err(e) => Err(RowError::Engine(e)),
            Ok(true) => Err(RowError::MoreThanOne),
            Ok(false) => Ok(row),
        },
    }
}

impl<T: SqlTable> ReturningRowBuilder<T> {
    /// The conflict policy of the insert.
    pub closed spec fn conflict(&self) -> Option<Conflict> {
        self.insert_row_builder.conflict()
    }

    /// Whether the insert leaves auto-increment columns to the database.
    pub closed spec fn leaves_auto_increment(&self) -> bool {
        self.insert_row_builder.leaves_auto_increment()
    }

    /// The insert of `insert_row_builder`, returning the inserted row.
    pub fn new(insert_row_builder: InsertRowBuilder<T>) -> (r: Self)
        ensures
            r.conflict() == insert_row_builder.conflict(),
            r.leaves_auto_increment() == insert_row_builder.leaves_auto_increment(),
    {
        ReturningRowBuilder { insert_row_builder, _marker: PhantomData }
    }

    /// The statement's text.
    pub fn build_sql(&self) -> (r: String)
        ensures
            r@ == returning_row_sql(T::spec_table_info(), self.conflict(), self.leaves_auto_increment()),
    {
        let insert_sql = self.insert_row_builder.build_sql();
        insert_sql.concat(" RETURNING *")
    }

    /// Whether the statement binds the parameter named `key`, as the insert
    /// does.
    pub fn binds_parameter(&self, key: &str) -> (r: bool)
        ensures
            r == insert_binds(T::spec_table_info(), self.leaves_auto_increment(), key@),
    {
        self.insert_row_builder.binds_parameter(key)
    }
}

} // verus!
