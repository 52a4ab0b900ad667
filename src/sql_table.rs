use vstd::prelude::*;

use crate::meta::SqlExtraColumnInfo;
use crate::table::Table;

verus! {

/// A record type mapped to an SQL table.
pub trait SqlTable: Table<ExtraTableInfo = (), ExtraColumnInfo = SqlExtraColumnInfo> {}

/// Every record type whose table carries SQL column metadata.
impl<T: Table<ExtraTableInfo = (), ExtraColumnInfo = SqlExtraColumnInfo>> SqlTable for T {}

} // verus!
