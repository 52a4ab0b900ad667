use vstd::prelude::*;

verus! {

/// A field type that maps onto an SQL column type.
pub trait SqlType {
    /// The column type name, e.g. `INTEGER` or `TEXT`.
    spec fn spec_sql_type_name() -> Seq<char>;

    /// Whether a column of this type may hold `NULL`.
    spec fn spec_is_nullable() -> bool;

    /// The column type name, e.g. `INTEGER` or `TEXT`.
    fn sql_type_name() -> (r: &'static str)
        ensures
            r@ == Self::spec_sql_type_name(),
    ;

    /// Whether a column of this type may hold `NULL`.
    fn is_nullable() -> (r: bool)
        ensures
            r == Self::spec_is_nullable(),
    ;
}

/// An optional value is stored in a nullable column of the inner type.
impl<T: SqlType> SqlType for Option<T> {
    open spec fn spec_sql_type_name() -> Seq<char> {
        T::spec_sql_type_name()
    }

    open spec fn spec_is_nullable() -> bool {
        true
    }

    fn sql_type_name() -> (r: &'static str) {
        T::sql_type_name()
    }

    fn is_nullable() -> (r: bool) {
        true
    }
}

impl SqlType for i8 {
    open spec fn spec_sql_type_name() -> Seq<char> {
        "INTEGER"@
    }

    open spec fn spec_is_nullable() -> bool {
        false
    }

    fn sql_type_name() -> (r: &'static str) {
        "INTEGER"
    }

    fn is_nullable() -> (r: bool) {
        false
    }
}

impl SqlType for u8 {
    open spec fn spec_sql_type_name() -> Seq<char> {
        "INTEGER"@
    }

    open spec fn spec_is_nullable() -> bool {
        false
    }

    fn sql_type_name() -> (r: &'static str) {
        "INTEGER"
    }

    fn is_nullable() -> (r: bool) {
        false
    }
}

impl SqlType for i16 {
    open spec fn spec_sql_type_name() -> Seq<char> {
        "INTEGER"@
    }

    open spec fn spec_is_nullable() -> bool {
        false
    }

    fn sql_type_name() -> (r: &'static str) {
        "INTEGER"
    }

    fn is_nullable() -> (r: bool) {
        false
    }
}

impl SqlType for u16 {
    open spec fn spec_sql_type_name() -> Seq<char> {
        "INTEGER"@
    }

    open spec fn spec_is_nullable() -> bool {
        false
    }

    fn sql_type_name() -> (r: &'static str) {
        "INTEGER"
    }

    fn is_nullable() -> (r: bool) {
        false
    }
}

impl SqlType for i32 {
    open spec fn spec_sql_type_name() -> Seq<char> {
        "INTEGER"@
    }

    open spec fn spec_is_nullable() -> bool {
        false
    }

    fn sql_type_name() -> (r: &'static str) {
        "INTEGER"
    }

    fn is_nullable() -> (r: bool) {
        false
    }
}

impl SqlType for u32 {
    open spec fn spec_sql_type_name() -> Seq<char> {
        "INTEGER"@
    }

    open spec fn spec_is_nullable() -> bool {
        false
    }

    fn sql_type_name() -> (r: &'static str) {
        "INTEGER"
    }

    fn is_nullable() -> (r: bool) {
        false
    }
}

impl SqlType for i64 {
    open spec fn spec_sql_type_name() -> Seq<char> {
        "INTEGER"@
    }

    open spec fn spec_is_nullable() -> bool {
        false
    }

    fn sql_type_name() -> (r: &'static str) {
        "INTEGER"
    }

    fn is_nullable() -> (r: bool) {
        false
    }
}

impl SqlType for u64 {
    open spec fn spec_sql_type_name() -> Seq<char> {
        "INTEGER"@
    }

    open spec fn spec_is_nullable() -> bool {
        false
    }

    fn sql_type_name() -> (r: &'static str) {
        "INTEGER"
    }

    fn is_nullable() -> (r: bool) {
        false
    }
}

impl SqlType for bool {
    open spec fn spec_sql_type_name() -> Seq<char> {
        "INTEGER"@
    }

    open spec fn spec_is_nullable() -> bool {
        false
    }

    fn sql_type_name() -> (r: &'static str) {
        "INTEGER"
    }

    fn is_nullable() -> (r: bool) {
        false
    }
}

impl SqlType for String {
    open spec fn spec_sql_type_name() -> Seq<char> {
        "TEXT"@
    }

    open spec fn spec_is_nullable() -> bool {
        false
    }

    fn sql_type_name() -> (r: &'static str) {
        "TEXT"
    }

    fn is_nullable() -> (r: bool) {
        false
    }
}

} // verus!
