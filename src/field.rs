use vstd::prelude::*;

verus! {

/// The declared type of a record field, as a token compared at run time.
#[derive(Clone, Copy, Debug, PartialEq, Eq, Structural)]
pub enum FieldKind {
    Bool,
    I8,
    U8,
    I16,
    U16,
    I32,
    U32,
    I64,
    U64,
    Text,
    OptionalBool,
    OptionalI8,
    OptionalU8,
    OptionalI16,
    OptionalU16,
    OptionalI32,
    OptionalU32,
    OptionalI64,
    OptionalU64,
    OptionalText,
}

/// The value of a record field, tagged with the field's declared type.
pub ghost enum FieldValue {
    Bool(bool),
    I8(i8),
    U8(u8),
    I16(i16),
    U16(u16),
    I32(i32),
    U32(u32),
    I64(i64),
    U64(u64),
    Text(Seq<char>),
    OptionalBool(Option<bool>),
    OptionalI8(Option<i8>),
    OptionalU8(Option<u8>),
    OptionalI16(Option<i16>),
    OptionalU16(Option<u16>),
    OptionalI32(Option<i32>),
    OptionalU32(Option<u32>),
    OptionalI64(Option<i64>),
    OptionalU64(Option<u64>),
    OptionalText(Option<Seq<char>>),
}

/// The characters of an optional text value.
pub open spec fn optional_text_view(v: Option<String>) -> Option<Seq<char>> {
    match v {
        Some(s) => Some(s@),
        None => None,
    }
}

impl FieldValue {
    /// The declared type of the field that holds this value.
    pub open spec fn kind(self) -> FieldKind {
        match self {
            FieldValue::Bool(_) => FieldKind::Bool,
            FieldValue::I8(_) => FieldKind::I8,
            FieldValue::U8(_) => FieldKind::U8,
            FieldValue::I16(_) => FieldKind::I16,
            FieldValue::U16(_) => FieldKind::U16,
            FieldValue::I32(_) => FieldKind::I32,
            FieldValue::U32(_) => FieldKind::U32,
            FieldValue::I64(_) => FieldKind::I64,
            FieldValue::U64(_) => FieldKind::U64,
            FieldValue::Text(_) => FieldKind::Text,
            FieldValue::OptionalBool(_) => FieldKind::OptionalBool,
            FieldValue::OptionalI8(_) => FieldKind::OptionalI8,
            FieldValue::OptionalU8(_) => FieldKind::OptionalU8,
            FieldValue::OptionalI16(_) => FieldKind::OptionalI16,
            FieldValue::OptionalU16(_) => FieldKind::OptionalU16,
            FieldValue::OptionalI32(_) => FieldKind::OptionalI32,
            FieldValue::OptionalU32(_) => FieldKind::OptionalU32,
            FieldValue::OptionalI64(_) => FieldKind::OptionalI64,
            FieldValue::OptionalU64(_) => FieldKind::OptionalU64,
            FieldValue::OptionalText(_) => FieldKind::OptionalText,
        }
    }
}

/// A shared borrow of a record field, tagged with the field's declared type.
pub enum FieldRef<'a> {
    Bool(&'a bool),
    I8(&'a i8),
    U8(&'a u8),
    I16(&'a i16),
    U16(&'a u16),
    I32(&'a i32),
    U32(&'a u32),
    I64(&'a i64),
    U64(&'a u64),
    Text(&'a String),
    OptionalBool(&'a Option<bool>),
    OptionalI8(&'a Option<i8>),
    OptionalU8(&'a Option<u8>),
    OptionalI16(&'a Option<i16>),
    OptionalU16(&'a Option<u16>),
    OptionalI32(&'a Option<i32>),
    OptionalU32(&'a Option<u32>),
    OptionalI64(&'a Option<i64>),
    OptionalU64(&'a Option<u64>),
    OptionalText(&'a Option<String>),
}

impl<'a> FieldRef<'a> {
    /// The value of the borrowed field.
    pub open spec fn value(self) -> FieldValue {
        match self {
            FieldRef::Bool(x) => FieldValue::Bool(*x),
            FieldRef::I8(x) => FieldValue::I8(*x),
            FieldRef::U8(x) => FieldValue::U8(*x),
            FieldRef::I16(x) => FieldValue::I16(*x),
            FieldRef::U16(x) => FieldValue::U16(*x),
            FieldRef::I32(x) => FieldValue::I32(*x),
            FieldRef::U32(x) => FieldValue::U32(*x),
            FieldRef::I64(x) => FieldValue::I64(*x),
            FieldRef::U64(x) => FieldValue::U64(*x),
            FieldRef::Text(x) => FieldValue::Text(x@),
            FieldRef::OptionalBool(x) => FieldValue::OptionalBool(*x),
            FieldRef::OptionalI8(x) => FieldValue::OptionalI8(*x),
            FieldRef::OptionalU8(x) => FieldValue::OptionalU8(*x),
            FieldRef::OptionalI16(x) => FieldValue::OptionalI16(*x),
            FieldRef::OptionalU16(x) => FieldValue::OptionalU16(*x),
            FieldRef::OptionalI32(x) => FieldValue::OptionalI32(*x),
            FieldRef::OptionalU32(x) => FieldValue::OptionalU32(*x),
            FieldRef::OptionalI64(x) => FieldValue::OptionalI64(*x),
            FieldRef::OptionalU64(x) => FieldValue::OptionalU64(*x),
            FieldRef::OptionalText(x) => FieldValue::OptionalText(optional_text_view(*x)),
        }
    }
}

/// A mutable borrow of a record field, tagged with the field's declared type.
pub enum FieldMut<'a> {
    Bool(&'a mut bool),
    I8(&'a mut i8),
    U8(&'a mut u8),
    I16(&'a mut i16),
    U16(&'a mut u16),
    I32(&'a mut i32),
    U32(&'a mut u32),
    I64(&'a mut i64),
    U64(&'a mut u64),
    Text(&'a mut String),
    OptionalBool(&'a mut Option<bool>),
    OptionalI8(&'a mut Option<i8>),
    OptionalU8(&'a mut Option<u8>),
    OptionalI16(&'a mut Option<i16>),
    OptionalU16(&'a mut Option<u16>),
    OptionalI32(&'a mut Option<i32>),
    OptionalU32(&'a mut Option<u32>),
    OptionalI64(&'a mut Option<i64>),
    OptionalU64(&'a mut Option<u64>),
    OptionalText(&'a mut Option<String>),
}

impl<'a> FieldMut<'a> {
    /// The value of the borrowed field when it is borrowed.
    pub open spec fn value(self) -> FieldValue {
        match self {
            FieldMut::Bool(x) => FieldValue::Bool(*x),
            FieldMut::I8(x) => FieldValue::I8(*x),
            FieldMut::U8(x) => FieldValue::U8(*x),
            FieldMut::I16(x) => FieldValue::I16(*x),
            FieldMut::U16(x) => FieldValue::U16(*x),
            FieldMut::I32(x) => FieldValue::I32(*x),
            FieldMut::U32(x) => FieldValue::U32(*x),
            FieldMut::I64(x) => FieldValue::I64(*x),
            FieldMut::U64(x) => FieldValue::U64(*x),
            FieldMut::Text(x) => FieldValue::Text(x@),
            FieldMut::OptionalBool(x) => FieldValue::OptionalBool(*x),
            FieldMut::OptionalI8(x) => FieldValue::OptionalI8(*x),
            FieldMut::OptionalU8(x) => FieldValue::OptionalU8(*x),
            FieldMut::OptionalI16(x) => FieldValue::OptionalI16(*x),
            FieldMut::OptionalU16(x) => FieldValue::OptionalU16(*x),
            FieldMut::OptionalI32(x) => FieldValue::OptionalI32(*x),
            FieldMut::OptionalU32(x) => FieldValue::OptionalU32(*x),
            FieldMut::OptionalI64(x) => FieldValue::OptionalI64(*x),
            FieldMut::OptionalU64(x) => FieldValue::OptionalU64(*x),
            FieldMut::OptionalText(x) => FieldValue::OptionalText(optional_text_view(*x)),
        }
    }
}

/// A type that a record field may be declared with.
pub trait FieldType: Sized {
    /// The token of this type.
    spec fn spec_kind() -> FieldKind;

    /// The field value that a value of this type is.
    spec fn field_value(v: Self) -> FieldValue;

    /// A value of this type is tagged with this type's token.
    proof fn lemma_field_value_kind(v: Self)
        ensures
            Self::field_value(v).kind() == Self::spec_kind(),
    ;

    /// The borrowed field as a value of this type, if it is declared with
    /// this type.
    fn from_ref<'a>(f: FieldRef<'a>) -> (r: Option<&'a Self>)
        ensures
            r is Some <==> f.value().kind() == Self::spec_kind(),
            r matches Some(v) ==> Self::field_value(*v) == f.value(),
    ;

    /// The borrowed field as a value of this type, if it is declared with
    /// this type; what is written through the result is written to the field,
    /// and without a result the field is left as it was.
    fn from_mut<'a>(f: FieldMut<'a>) -> (r: Option<&'a mut Self>)
        ensures
            r is Some <==> f.value().kind() == Self::spec_kind(),
            r matches Some(v) ==> Self::field_value(*v) == f.value() && match f {
                FieldMut::Bool(x) => Self::field_value(*final(v)) == FieldValue::Bool(*final(x)),
                FieldMut::I8(x) => Self::field_value(*final(v)) == FieldValue::I8(*final(x)),
                FieldMut::U8(x) => Self::field_value(*final(v)) == FieldValue::U8(*final(x)),
                FieldMut::I16(x) => Self::field_value(*final(v)) == FieldValue::I16(*final(x)),
                FieldMut::U16(x) => Self::field_value(*final(v)) == FieldValue::U16(*final(x)),
                FieldMut::I32(x) => Self::field_value(*final(v)) == FieldValue::I32(*final(x)),
                FieldMut::U32(x) => Self::field_value(*final(v)) == FieldValue::U32(*final(x)),
                FieldMut::I64(x) => Self::field_value(*final(v)) == FieldValue::I64(*final(x)),
                FieldMut::U64(x) => Self::field_value(*final(v)) == FieldValue::U64(*final(x)),
                FieldMut::Text(x) => Self::field_value(*final(v)) == FieldValue::Text(final(x)@),
                FieldMut::OptionalBool(x) => Self::field_value(*final(v))
                    == FieldValue::OptionalBool(*final(x)),
                FieldMut::OptionalI8(x) => Self::field_value(*final(v))
                    == FieldValue::OptionalI8(*final(x)),
                FieldMut::OptionalU8(x) => Self::field_value(*final(v))
                    == FieldValue::OptionalU8(*final(x)),
                FieldMut::OptionalI16(x) => Self::field_value(*final(v))
                    == FieldValue::OptionalI16(*final(x)),
                FieldMut::OptionalU16(x) => Self::field_value(*final(v))
                    == FieldValue::OptionalU16(*final(x)),
                FieldMut::OptionalI32(x) => Self::field_value(*final(v))
                    == FieldValue::OptionalI32(*final(x)),
                FieldMut::OptionalU32(x) => Self::field_value(*final(v))
                    == FieldValue::OptionalU32(*final(x)),
                FieldMut::OptionalI64(x) => Self::field_value(*final(v))
                    == FieldValue::OptionalI64(*final(x)),
                FieldMut::OptionalU64(x) => Self::field_value(*final(v))
                    == FieldValue::OptionalU64(*final(x)),
                FieldMut::OptionalText(x) => Self::field_value(*final(v))
                    == FieldValue::OptionalText(optional_text_view(*final(x))),
            },
            r is None ==> match f {
                FieldMut::Bool(x) => *final(x) == *x,
                FieldMut::I8(x) => *final(x) == *x,
                FieldMut::U8(x) => *final(x) == *x,
                FieldMut::I16(x) => *final(x) == *x,
                FieldMut::U16(x) => *final(x) == *x,
                FieldMut::I32(x) => *final(x) == *x,
                FieldMut::U32(x) => *final(x) == *x,
                FieldMut::I64(x) => *final(x) == *x,
                FieldMut::U64(x) => *final(x) == *x,
                FieldMut::Text(x) => *final(x) == *x,
                FieldMut::OptionalBool(x) => *final(x) == *x,
                FieldMut::OptionalI8(x) => *final(x) == *x,
                FieldMut::OptionalU8(x) => *final(x) == *x,
                FieldMut::OptionalI16(x) => *final(x) == *x,
                FieldMut::OptionalU16(x) => *final(x) == *x,
                FieldMut::OptionalI32(x) => *final(x) == *x,
                FieldMut::OptionalU32(x) => *final(x) == *x,
                FieldMut::OptionalI64(x) => *final(x) == *x,
                FieldMut::OptionalU64(x) => *final(x) == *x,
                FieldMut::OptionalText(x) => *final(x) == *x,
            },
    ;
}

impl FieldType for bool {
    open spec fn spec_kind() -> FieldKind {
        FieldKind::Bool
    }

    open spec fn field_value(v: Self) -> FieldValue {
        FieldValue::Bool(v)
    }

    proof fn lemma_field_value_kind(v: Self) {
    }

    fn from_ref<'a>(f: FieldRef<'a>) -> (r: Option<&'a Self>) {
        match f {
            FieldRef::Bool(x) => Some(x),
            _ => None,
        }
    }

    fn from_mut<'a>(f: FieldMut<'a>) -> (r: Option<&'a mut Self>) {
        match f {
            FieldMut::Bool(x) => Some(x),
            _ => None,
        }
    }
}

impl FieldType for i8 {
    open spec fn spec_kind() -> FieldKind {
        FieldKind::I8
    }

    open spec fn field_value(v: Self) -> FieldValue {
        FieldValue::I8(v)
    }

    proof fn lemma_field_value_kind(v: Self) {
    }

    fn from_ref<'a>(f: FieldRef<'a>) -> (r: Option<&'a Self>) {
        match f {
            FieldRef::I8(x) => Some(x),
            _ => None,
        }
    }

    fn from_mut<'a>(f: FieldMut<'a>) -> (r: Option<&'a mut Self>) {
        match f {
            FieldMut::I8(x) => Some(x),
            _ => None,
        }
    }
}

impl FieldType for u8 {
    open spec fn spec_kind() -> FieldKind {
        FieldKind::U8
    }

    open spec fn field_value(v: Self) -> FieldValue {
        FieldValue::U8(v)
    }

    proof fn lemma_field_value_kind(v: Self) {
    }

    fn from_ref<'a>(f: FieldRef<'a>) -> (r: Option<&'a Self>) {
        match f {
            FieldRef::U8(x) => Some(x),
            _ => None,
        }
    }

    fn from_mut<'a>(f: FieldMut<'a>) -> (r: Option<&'a mut Self>) {
        match f {
            FieldMut::U8(x) => Some(x),
            _ => None,
        }
    }
}

impl FieldType for i16 {
    open spec fn spec_kind() -> FieldKind {
        FieldKind::I16
    }

    open spec fn field_value(v: Self) -> FieldValue {
        FieldValue::I16(v)
    }

    proof fn lemma_field_value_kind(v: Self) {
    }

    fn from_ref<'a>(f: FieldRef<'a>) -> (r: Option<&'a Self>) {
        match f {
            FieldRef::I16(x) => Some(x),
            _ => None,
        }
    }

    fn from_mut<'a>(f: FieldMut<'a>) -> (r: Option<&'a mut Self>) {
        match f {
            FieldMut::I16(x) => Some(x),
            _ => None,
        }
    }
}

impl FieldType for u16 {
    open spec fn spec_kind() -> FieldKind {
        FieldKind::U16
    }

    open spec fn field_value(v: Self) -> FieldValue {
        FieldValue::U16(v)
    }

    proof fn lemma_field_value_kind(v: Self) {
    }

    fn from_ref<'a>(f: FieldRef<'a>) -> (r: Option<&'a Self>) {
        match f {
            FieldRef::U16(x) => Some(x),
            _ => None,
        }
    }

    fn from_mut<'a>(f: FieldMut<'a>) -> (r: Option<&'a mut Self>) {
        match f {
            FieldMut::U16(x) => Some(x),
            _ => None,
        }
    }
}

impl FieldType for i32 {
    open spec fn spec_kind() -> FieldKind {
        FieldKind::I32
    }

    open spec fn field_value(v: Self) -> FieldValue {
        FieldValue::I32(v)
    }

    proof fn lemma_field_value_kind(v: Self) {
    }

    fn from_ref<'a>(f: FieldRef<'a>) -> (r: Option<&'a Self>) {
        match f {
            FieldRef::I32(x) => Some(x),
            _ => None,
        }
    }

    fn from_mut<'a>(f: FieldMut<'a>) -> (r: Option<&'a mut Self>) {
        match f {
            FieldMut::I32(x) => Some(x),
            _ => None,
        }
    }
}

impl FieldType for u32 {
    open spec fn spec_kind() -> FieldKind {
        FieldKind::U32
    }

    open spec fn field_value(v: Self) -> FieldValue {
        FieldValue::U32(v)
    }

    proof fn lemma_field_value_kind(v: Self) {
    }

    fn from_ref<'a>(f: FieldRef<'a>) -> (r: Option<&'a Self>) {
        match f {
            FieldRef::U32(x) => Some(x),
            _ => None,
        }
    }

    fn from_mut<'a>(f: FieldMut<'a>) -> (r: Option<&'a mut Self>) {
        match f {
            FieldMut::U32(x) => Some(x),
            _ => None,
        }
    }
}

impl FieldType for i64 {
    open spec fn spec_kind() -> FieldKind {
        FieldKind::I64
    }

    open spec fn field_value(v: Self) -> FieldValue {
        FieldValue::I64(v)
    }

    proof fn lemma_field_value_kind(v: Self) {
    }

    fn from_ref<'a>(f: FieldRef<'a>) -> (r: Option<&'a Self>) {
        match f {
            FieldRef::I64(x) => Some(x),
            _ => None,
        }
    }

    fn from_mut<'a>(f: FieldMut<'a>) -> (r: Option<&'a mut Self>) {
        match f {
            FieldMut::I64(x) => Some(x),
            _ => None,
        }
    }
}

impl FieldType for u64 {
    open spec fn spec_kind() -> FieldKind {
        FieldKind::U64
    }

    open spec fn field_value(v: Self) -> FieldValue {
        FieldValue::U64(v)
    }

    proof fn lemma_field_value_kind(v: Self) {
    }

    fn from_ref<'a>(f: FieldRef<'a>) -> (r: Option<&'a Self>) {
        match f {
            FieldRef::U64(x) => Some(x),
            _ => None,
        }
    }

    fn from_mut<'a>(f: FieldMut<'a>) -> (r: Option<&'a mut Self>) {
        match f {
            FieldMut::U64(x) => Some(x),
            _ => None,
        }
    }
}

impl FieldType for String {
    open spec fn spec_kind() -> FieldKind {
        FieldKind::Text
    }

    open spec fn field_value(v: Self) -> FieldValue {
        FieldValue::Text(v@)
    }

    proof fn lemma_field_value_kind(v: Self) {
    }

    fn from_ref<'a>(f: FieldRef<'a>) -> (r: Option<&'a Self>) {
        match f {
            FieldRef::Text(x) => Some(x),
            _ => None,
        }
    }

    fn from_mut<'a>(f: FieldMut<'a>) -> (r: Option<&'a mut Self>) {
        match f {
            FieldMut::Text(x) => Some(x),
            _ => None,
        }
    }
}

impl FieldType for Option<bool> {
    open spec fn spec_kind() -> FieldKind {
        FieldKind::OptionalBool
    }

    open spec fn field_value(v: Self) -> FieldValue {
        FieldValue::OptionalBool(v)
    }

    proof fn lemma_field_value_kind(v: Self) {
    }

    fn from_ref<'a>(f: FieldRef<'a>) -> (r: Option<&'a Self>) {
        match f {
            FieldRef::OptionalBool(x) => Some(x),
            _ => None,
        }
    }

    fn from_mut<'a>(f: FieldMut<'a>) -> (r: Option<&'a mut Self>) {
        match f {
            FieldMut::OptionalBool(x) => Some(x),
            _ => None,
        }
    }
}

impl FieldType for Option<i8> {
    open spec fn spec_kind() -> FieldKind {
        FieldKind::OptionalI8
    }

    open spec fn field_value(v: Self) -> FieldValue {
        FieldValue::OptionalI8(v)
    }

    proof fn lemma_field_value_kind(v: Self) {
    }

    fn from_ref<'a>(f: FieldRef<'a>) -> (r: Option<&'a Self>) {
        match f {
            FieldRef::OptionalI8(x) => Some(x),
            _ => None,
        }
    }

    fn from_mut<'a>(f: FieldMut<'a>) -> (r: Option<&'a mut Self>) {
        match f {
            FieldMut::OptionalI8(x) => Some(x),
            _ => None,
        }
    }
}

impl FieldType for Option<u8> {
    open spec fn spec_kind() -> FieldKind {
        FieldKind::OptionalU8
    }

    open spec fn field_value(v: Self) -> FieldValue {
        FieldValue::OptionalU8(v)
    }

    proof fn lemma_field_value_kind(v: Self) {
    }

    fn from_ref<'a>(f: FieldRef<'a>) -> (r: Option<&'a Self>) {
        match f {
            FieldRef::OptionalU8(x) => Some(x),
            _ => None,
        }
    }

    fn from_mut<'a>(f: FieldMut<'a>) -> (r: Option<&'a mut Self>) {
        match f {
            FieldMut::OptionalU8(x) => Some(x),
            _ => None,
        }
    }
}

impl FieldType for Option<i16> {
    open spec fn spec_kind() -> FieldKind {
        FieldKind::OptionalI16
    }

    open spec fn field_value(v: Self) -> FieldValue {
        FieldValue::OptionalI16(v)
    }

    proof fn lemma_field_value_kind(v: Self) {
    }

    fn from_ref<'a>(f: FieldRef<'a>) -> (r: Option<&'a Self>) {
        match f {
            FieldRef::OptionalI16(x) => Some(x),
            _ => None,
        }
    }

    fn from_mut<'a>(f: FieldMut<'a>) -> (r: Option<&'a mut Self>) {
        match f {
            FieldMut::OptionalI16(x) => Some(x),
            _ => None,
        }
    }
}

impl FieldType for Option<u16> {
    open spec fn spec_kind() -> FieldKind {
        FieldKind::OptionalU16
    }

    open spec fn field_value(v: Self) -> FieldValue {
        FieldValue::OptionalU16(v)
    }

    proof fn lemma_field_value_kind(v: Self) {
    }

    fn from_ref<'a>(f: FieldRef<'a>) -> (r: Option<&'a Self>) {
        match f {
            FieldRef::OptionalU16(x) => Some(x),
            _ => None,
        }
    }

    fn from_mut<'a>(f: FieldMut<'a>) -> (r: Option<&'a mut Self>) {
        match f {
            FieldMut::OptionalU16(x) => Some(x),
            _ => None,
        }
    }
}

impl FieldType for Option<i32> {
    open spec fn spec_kind() -> FieldKind {
        FieldKind::OptionalI32
    }

    open spec fn field_value(v: Self) -> FieldValue {
        FieldValue::OptionalI32(v)
    }

    proof fn lemma_field_value_kind(v: Self) {
    }

    fn from_ref<'a>(f: FieldRef<'a>) -> (r: Option<&'a Self>) {
        match f {
            FieldRef::OptionalI32(x) => Some(x),
            _ => None,
        }
    }

    fn from_mut<'a>(f: FieldMut<'a>) -> (r: Option<&'a mut Self>) {
        match f {
            FieldMut::OptionalI32(x) => Some(x),
            _ => None,
        }
    }
}

impl FieldType for Option<u32> {
    open spec fn spec_kind() -> FieldKind {
        FieldKind::OptionalU32
    }

    open spec fn field_value(v: Self) -> FieldValue {
        FieldValue::OptionalU32(v)
    }

    proof fn lemma_field_value_kind(v: Self) {
    }

    fn from_ref<'a>(f: FieldRef<'a>) -> (r: Option<&'a Self>) {
        match f {
            FieldRef::OptionalU32(x) => Some(x),
            _ => None,
        }
    }

    fn from_mut<'a>(f: FieldMut<'a>) -> (r: Option<&'a mut Self>) {
        match f {
            FieldMut::OptionalU32(x) => Some(x),
            _ => None,
        }
    }
}

impl FieldType for Option<i64> {
    open spec fn spec_kind() -> FieldKind {
        FieldKind::OptionalI64
    }

    open spec fn field_value(v: Self) -> FieldValue {
        FieldValue::OptionalI64(v)
    }

    proof fn lemma_field_value_kind(v: Self) {
    }

    fn from_ref<'a>(f: FieldRef<'a>) -> (r: Option<&'a Self>) {
        match f {
            FieldRef::OptionalI64(x) => Some(x),
            _ => None,
        }
    }

    fn from_mut<'a>(f: FieldMut<'a>) -> (r: Option<&'a mut Self>) {
        match f {
            FieldMut::OptionalI64(x) => Some(x),
            _ => None,
        }
    }
}

impl FieldType for Option<u64> {
    open spec fn spec_kind() -> FieldKind {
        FieldKind::OptionalU64
    }

    open spec fn field_value(v: Self) -> FieldValue {
        FieldValue::OptionalU64(v)
    }

    proof fn lemma_field_value_kind(v: Self) {
    }

    fn from_ref<'a>(f: FieldRef<'a>) -> (r: Option<&'a Self>) {
        match f {
            FieldRef::OptionalU64(x) => Some(x),
            _ => None,
        }
    }

    fn from_mut<'a>(f: FieldMut<'a>) -> (r: Option<&'a mut Self>) {
        match f {
            FieldMut::OptionalU64(x) => Some(x),
            _ => None,
        }
    }
}

impl FieldType for Option<String> {
    open spec fn spec_kind() -> FieldKind {
        FieldKind::OptionalText
    }

    open spec fn field_value(v: Self) -> FieldValue {
        FieldValue::OptionalText(optional_text_view(v))
    }

    proof fn lemma_field_value_kind(v: Self) {
    }

    fn from_ref<'a>(f: FieldRef<'a>) -> (r: Option<&'a Self>) {
        match f {
            FieldRef::OptionalText(x) => Some(x),
            _ => None,
        }
    }

    fn from_mut<'a>(f: FieldMut<'a>) -> (r: Option<&'a mut Self>) {
        match f {
            FieldMut::OptionalText(x) => Some(x),
            _ => None,
        }
    }
}

} // verus!
