use vstd::prelude::*;

use crate::column::Column;
use crate::field::{FieldMut, FieldRef, FieldType, FieldValue, optional_text_view};
use crate::table_info::TableInfo;

verus! {

/// A record type mapped to a table.
///
/// An implementation describes the record's table and lends out its fields
/// by field name; reading and writing a field at a type chosen by the caller
/// is provided on top of that.
pub trait Table: Sized {
    /// Extra information about the table.
    type ExtraTableInfo;

    /// Extra information about each column.
    type ExtraColumnInfo;

    /// The table of this record type; the same on every call. An
    /// implementation that is not verified leaves it unspecified.
    closed spec fn spec_table_info() -> TableInfo<Self::ExtraTableInfo, Self::ExtraColumnInfo> {
        arbitrary()
    }

    /// The fields of the record, by field name. An implementation that is
    /// not verified leaves them unspecified.
    closed spec fn fields(&self) -> Map<Seq<char>, FieldValue> {
        arbitrary()
    }

    /// The table of this record type; a well-formed descriptor, the same on
    /// every call.
    fn table_info() -> (r: TableInfo<Self::ExtraTableInfo, Self::ExtraColumnInfo>)
        ensures
            r == Self::spec_table_info(),
            r.wf(),
    ;

    /// The field with this field name, if the record has one.
    fn field(&self, field_name: &str) -> (r: Option<FieldRef<'_>>)
        ensures
            match r {
                Some(f) => self.fields().contains_key(field_name@) && f.value()
                    == self.fields()[field_name@],
                None => !self.fields().contains_key(field_name@),
            },
    ;

    /// The field with this field name, if the record has one; what is written
    /// through the result is written to that field and to no other.
    fn field_mut(&mut self, field_name: &str) -> (r: Option<FieldMut<'_>>)
        ensures
            match r {
                Some(f) => old(self).fields().contains_key(field_name@) && f.value()
                    == old(self).fields()[field_name@] && match f {
                        FieldMut::Bool(x) => final(self).fields() == old(self).fields().insert(
                            field_name@,
                            FieldValue::Bool(*final(x)),
                        ),
                        FieldMut::I8(x) => final(self).fields() == old(self).fields().insert(
                            field_name@,
                            FieldValue::I8(*final(x)),
                        ),
                        FieldMut::U8(x) => final(self).fields() == old(self).fields().insert(
                            field_name@,
                            FieldValue::U8(*final(x)),
                        ),
                        FieldMut::I16(x) => final(self).fields() == old(self).fields().insert(
                            field_name@,
                            FieldValue::I16(*final(x)),
                        ),
                        FieldMut::U16(x) => final(self).fields() == old(self).fields().insert(
                            field_name@,
                            FieldValue::U16(*final(x)),
                        ),
                        FieldMut::I32(x) => final(self).fields() == old(self).fields().insert(
                            field_name@,
                            FieldValue::I32(*final(x)),
                        ),
                        FieldMut::U32(x) => final(self).fields() == old(self).fields().insert(
                            field_name@,
                            FieldValue::U32(*final(x)),
                        ),
                        FieldMut::I64(x) => final(self).fields() == old(self).fields().insert(
                            field_name@,
                            FieldValue::I64(*final(x)),
                        ),
                        FieldMut::U64(x) => final(self).fields() == old(self).fields().insert(
                            field_name@,
                            FieldValue::U64(*final(x)),
                        ),
                        FieldMut::Text(x) => final(self).fields() == old(self).fields().insert(
                            field_name@,
                            FieldValue::Text(final(x)@),
                        ),
                        FieldMut::OptionalBool(x) => final(self).fields()
                            == old(self).fields().insert(
                            field_name@,
                            FieldValue::OptionalBool(*final(x)),
                        ),
                        FieldMut::OptionalI8(x) => final(self).fields()
                            == old(self).fields().insert(
                            field_name@,
                            FieldValue::OptionalI8(*final(x)),
                        ),
                        FieldMut::OptionalU8(x) => final(self).fields()
                            == old(self).fields().insert(
                            field_name@,
                            FieldValue::OptionalU8(*final(x)),
                        ),
                        FieldMut::OptionalI16(x) => final(self).fields()
                            == old(self).fields().insert(
                            field_name@,
                            FieldValue::OptionalI16(*final(x)),
                        ),
                        FieldMut::OptionalU16(x) => final(self).fields()
                            == old(self).fields().insert(
                            field_name@,
                            FieldValue::OptionalU16(*final(x)),
                        ),
                        FieldMut::OptionalI32(x) => final(self).fields()
                            == old(self).fields().insert(
                            field_name@,
                            FieldValue::OptionalI32(*final(x)),
                        ),
                        FieldMut::OptionalU32(x) => final(self).fields()
                            == old(self).fields().insert(
                            field_name@,
                            FieldValue::OptionalU32(*final(x)),
                        ),
                        FieldMut::OptionalI64(x) => final(self).fields()
                            == old(self).fields().insert(
                            field_name@,
                            FieldValue::OptionalI64(*final(x)),
                        ),
                        FieldMut::OptionalU64(x) => final(self).fields()
                            == old(self).fields().insert(
                            field_name@,
                            FieldValue::OptionalU64(*final(x)),
                        ),
                        FieldMut::OptionalText(x) => final(self).fields()
                            == old(self).fields().insert(
                            field_name@,
                            FieldValue::OptionalText(optional_text_view(*final(x))),
                        ),
                    },
                None => !old(self).fields().contains_key(field_name@) && final(self).fields()
                    == old(self).fields(),
            },
    ;

    /// The field that `column` maps, read as a `T`: present exactly when the
    /// record has a field of that name declared with type `T`, and then
    /// equal to the field's current value.
    fn value_ref<T: FieldType>(&self, column: &Column<Self::ExtraColumnInfo>) -> (r: Option<&T>)
        ensures
            r is Some <==> self.fields().contains_key(column.field_name@)
                && self.fields()[column.field_name@].kind() == T::spec_kind(),
            r matches Some(v) ==> T::field_value(*v) == self.fields()[column.field_name@],
    {
        match self.field(column.field_name) {
            Some(f) => T::from_ref(f),
            None => None,
        }
    }

    /// The field that `column` maps, borrowed mutably as a `T`: present
    /// exactly when the record has a field of that name declared with type
    /// `T`. What is written through it becomes that field's value, and the
    /// other fields keep theirs; without a result the record is unchanged.
    fn value_mut<T: FieldType>(&mut self, column: &Column<Self::ExtraColumnInfo>) -> (r: Option<
        &mut T,
    >)
        ensures
            r is Some <==> old(self).fields().contains_key(column.field_name@)
                && old(self).fields()[column.field_name@].kind() == T::spec_kind(),
            r matches Some(v) ==> T::field_value(*v) == old(self).fields()[column.field_name@]
                && final(self).fields() == old(self).fields().insert(
                column.field_name@,
                T::field_value(*final(v)),
            ),
            r is None ==> final(self).fields() == old(self).fields(),
    {
        match self.field_mut(column.field_name) {
            Some(f) => T::from_mut(f),
            None => None,
        }
    }
}

/// Reading a field after writing `v` to it: when `after` is the record that
/// `value_mut::<T>` leaves once `v` was written through its result, then
/// `value_ref::<T>` on `after` for the same column finds the field, at type
/// `T`, holding `v`.
pub proof fn lemma_write_then_read<R: Table, T: FieldType>(
    before: R,
    after: R,
    field_name: Seq<char>,
    v: T,
)
    requires
        before.fields().contains_key(field_name),
        before.fields()[field_name].kind() == T::spec_kind(),
        after.fields() == before.fields().insert(field_name, T::field_value(v)),
    ensures
        after.fields().contains_key(field_name),
        after.fields()[field_name].kind() == T::spec_kind(),
        after.fields()[field_name] == T::field_value(v),
{
    T::lemma_field_value_kind(v);
}

} // verus!
