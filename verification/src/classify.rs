//! The type classifier: from a type expression to the category that decides its default.

use vstd::prelude::*;
use vstd::string::*;
use crate::decimal::{parse_decimal, parsed_length};
use crate::model::{
    ArrayLength, ClassifyError, FieldInfo, FieldType, NumericKind, Refusal, TypeClass, TypeExpr,
    TypeShape,
};

verus! {

/// The numeric primitive that `key` names, if it names one.
pub open spec fn numeric_kind_of(key: Seq<char>) -> Option<NumericKind> {
    if key == "i8"@ {
        Some(NumericKind::I8)
    } else if key == "i16"@ {
        Some(NumericKind::I16)
    } else if key == "i32"@ {
        Some(NumericKind::I32)
    } else if key == "i64"@ {
        Some(NumericKind::I64)
    } else if key == "i128"@ {
        Some(NumericKind::I128)
    } else if key == "isize"@ {
        Some(NumericKind::Isize)
    } else if key == "u8"@ {
        Some(NumericKind::U8)
    } else if key == "u16"@ {
        Some(NumericKind::U16)
    } else if key == "u32"@ {
        Some(NumericKind::U32)
    } else if key == "u64"@ {
        Some(NumericKind::U64)
    } else if key == "u128"@ {
        Some(NumericKind::U128)
    } else if key == "usize"@ {
        Some(NumericKind::Usize)
    } else if key == "f32"@ {
        Some(NumericKind::F32)
    } else if key == "f64"@ {
        Some(NumericKind::F64)
    } else {
        None
    }
}

/// The class of a path whose final segment is `key`. A name outside the table is taken
/// for a record of the user's.
pub open spec fn class_of_key(key: Seq<char>) -> TypeClass {
    if key == "String"@ {
        TypeClass::Text
    } else if key == "OsString"@ {
        TypeClass::OsText
    } else if key == "char"@ {
        TypeClass::Char
    } else if key == "bool"@ {
        TypeClass::Bool
    } else if key == "Vec"@ {
        TypeClass::DynamicSequence
    } else {
        match numeric_kind_of(key) {
            Some(kind) => TypeClass::Numeric(kind),
            None => TypeClass::UserRecord,
        }
    }
}

/// The form the engine reads in a type expression, or the reason it cannot read it.
///
/// A path is read by its final segment, whatever qualifies it; of the paths whose final
/// segment carries arguments only `Vec` is read. An array is read when its element is a
/// path and its length an integer literal that fits.
pub open spec fn field_type_of(t: &TypeExpr) -> Result<FieldType, ClassifyError>
    decreases t,
{
    match &t.shape {
        TypeShape::Path { segments, instantiated } => {
            if segments@.len() == 0 {
                Err(ClassifyError::UnsupportedShape)
            } else if *instantiated && segments@[segments@.len() - 1]@ != "Vec"@ {
                Err(ClassifyError::UnsupportedShape)
            } else {
                Ok(FieldType::Basic(&segments@[segments@.len() - 1], &t.text))
            }
        },
        TypeShape::Array(elem, len) => {
            match field_type_of(&**elem) {
                Err(e) => Err(e),
                Ok(FieldType::Array(_, _, _)) => Err(ClassifyError::UnsupportedElement),
                Ok(FieldType::Basic(key, full)) => {
                    match len {
                        ArrayLength::Integer(digits) => {
                            match parsed_length(digits@) {
                                Some(n) => Ok(FieldType::Array(key, full, n)),
                                None => Err(ClassifyError::InvalidLength),
                            }
                        },
                        _ => Err(ClassifyError::UnsupportedLength),
                    }
                },
            }
        },
        TypeShape::Other => Err(ClassifyError::UnsupportedShape),
    }
}

/// The class of a form that was read: a path by its key, an array by its element's key,
/// which must name a numeric primitive.
pub open spec fn class_of_field_type(ft: FieldType) -> Result<TypeClass, ClassifyError> {
    match ft {
        FieldType::Basic(key, _) => Ok(class_of_key(key@)),
        FieldType::Array(key, _, n) => {
            match numeric_kind_of(key@) {
                Some(kind) => Ok(TypeClass::NumericArray(kind, n)),
                None => Err(ClassifyError::UnsupportedElement),
            }
        },
    }
}

/// The class of a type expression, or the reason it has none.
pub open spec fn class_of(t: &TypeExpr) -> Result<TypeClass, ClassifyError> {
    match field_type_of(t) {
        Ok(ft) => class_of_field_type(ft),
        Err(e) => Err(e),
    }
}

/// A path without arguments is classified by its final segment alone: it always has a
/// class, and two such paths that end in the same identifier have the same class,
/// whatever qualifies them.
pub proof fn lemma_class_ignores_qualification(a: &TypeExpr, b: &TypeExpr)
    requires
        a.shape matches TypeShape::Path { segments, instantiated } && segments@.len() > 0
            && !instantiated,
        b.shape matches TypeShape::Path { segments, instantiated } && segments@.len() > 0
            && !instantiated,
        a.shape->segments@.last()@ == b.shape->segments@.last()@,
    ensures
        class_of(a) == Ok::<TypeClass, ClassifyError>(class_of_key(a.shape->segments@.last()@)),
        class_of(a) == class_of(b),
{
}

/// A path whose final segment carries arguments is a sequence when that segment is
/// `Vec`, and has no class otherwise.
pub proof fn lemma_class_of_instantiation(t: &TypeExpr)
    requires
        t.shape matches TypeShape::Path { segments, instantiated } && segments@.len() > 0
            && instantiated,
    ensures
        t.shape->segments@.last()@ == "Vec"@ ==> class_of(t) == Ok::<TypeClass, ClassifyError>(
            TypeClass::DynamicSequence,
        ),
        t.shape->segments@.last()@ != "Vec"@ ==> class_of(t) == Err::<TypeClass, ClassifyError>(
            ClassifyError::UnsupportedShape,
        ),
{
    reveal_strlit("Vec");
    reveal_strlit("String");
    reveal_strlit("OsString");
    reveal_strlit("char");
    reveal_strlit("bool");
    assert("Vec"@.len() == 3);
    assert("String"@.len() == 6);
    assert("OsString"@.len() == 8);
    assert("char"@.len() == 4);
    assert("bool"@.len() == 4);
}

/// Whether `key` spells exactly `name`.
pub fn key_is(key: &String, name: &str) -> (r: bool)
    ensures
        r == (key@ == name@),
{
    let other = String::from_str(name);
    *key == other
}

/// Looks `key` up among the names of the numeric primitives.
pub fn numeric_kind(key: &String) -> (r: Option<NumericKind>)
    ensures
        r == numeric_kind_of(key@),
{
    if key_is(key, "i8") {
        Some(NumericKind::I8)
    } else if key_is(key, "i16") {
        Some(NumericKind::I16)
    } else if key_is(key, "i32") {
        Some(NumericKind::I32)
    } else if key_is(key, "i64") {
        Some(NumericKind::I64)
    } else if key_is(key, "i128") {
        Some(NumericKind::I128)
    } else if key_is(key, "isize") {
        Some(NumericKind::Isize)
    } else if key_is(key, "u8") {
        Some(NumericKind::U8)
    } else if key_is(key, "u16") {
        Some(NumericKind::U16)
    } else if key_is(key, "u32") {
        Some(NumericKind::U32)
    } else if key_is(key, "u64") {
        Some(NumericKind::U64)
    } else if key_is(key, "u128") {
        Some(NumericKind::U128)
    } else if key_is(key, "usize") {
        Some(NumericKind::Usize)
    } else if key_is(key, "f32") {
        Some(NumericKind::F32)
    } else if key_is(key, "f64") {
        Some(NumericKind::F64)
    } else {
        None
    }
}

/// Classifies a path by the identifier of its final segment.
pub fn classify_key(key: &String) -> (r: TypeClass)
    ensures
        r == class_of_key(key@),
{
    if key_is(key, "String") {
        TypeClass::Text
    } else if key_is(key, "OsString") {
        TypeClass::OsText
    } else if key_is(key, "char") {
        TypeClass::Char
    } else if key_is(key, "bool") {
        TypeClass::Bool
    } else if key_is(key, "Vec") {
        TypeClass::DynamicSequence
    } else {
        match numeric_kind(key) {
            Some(kind) => TypeClass::Numeric(kind),
            None => TypeClass::UserRecord,
        }
    }
}

/// Reads the form of a type expression: the key and full text of a path, or those of an
/// array's element with the array's length.
pub fn parse_field_type<'a>(field_type: &'a TypeExpr) -> (r: Result<FieldType<'a>, ClassifyError>)
    ensures
        r == field_type_of(field_type),
    decreases field_type,
{
    match &field_type.shape {
        TypeShape::Path { segments, instantiated } => {
            let n = segments.len();
            if n == 0 {
                Err(ClassifyError::UnsupportedShape)
            } else if *instantiated && !key_is(&segments[n - 1], "Vec") {
                Err(ClassifyError::UnsupportedShape)
            } else {
                Ok(FieldType::Basic(&segments[n - 1], &field_type.text))
            }
        },
        TypeShape::Array(elem, len) => {
            match parse_field_type(&**elem) {
                Err(e) => Err(e),
                Ok(FieldType::Array(_, _, _)) => Err(ClassifyError::UnsupportedElement),
                Ok(FieldType::Basic(key, full)) => {
                    match len {
                        ArrayLength::Integer(digits) => {
                            match parse_decimal(digits.as_str()) {
                                Some(n) => Ok(FieldType::Array(key, full, n)),
                                None => Err(ClassifyError::InvalidLength),
                            }
                        },
                        _ => Err(ClassifyError::UnsupportedLength),
                    }
                },
            }
        },
        TypeShape::Other => Err(ClassifyError::UnsupportedShape),
    }
}

/// Classifies a form that was read.
pub fn classify_field_type<'a>(ft: &FieldType<'a>) -> (r: Result<TypeClass, ClassifyError>)
    ensures
        r == class_of_field_type(*ft),
{
    match ft {
        FieldType::Basic(key, _) => Ok(classify_key(key)),
        FieldType::Array(key, _, n) => {
            match numeric_kind(key) {
                Some(kind) => Ok(TypeClass::NumericArray(kind, *n)),
                None => Err(ClassifyError::UnsupportedElement),
            }
        },
    }
}

/// Classifies a type expression.
pub fn classify(t: &TypeExpr) -> (r: Result<TypeClass, ClassifyError>)
    ensures
        r == class_of(t),
{
    match parse_field_type(t) {
        Ok(ft) => classify_field_type(&ft),
        Err(e) => Err(e),
    }
}

/// Why a field cannot be given a default, if it cannot: an opted-out field's type is
/// never looked into, any other field needs a class.
pub open spec fn field_error(f: FieldInfo) -> Option<ClassifyError> {
    if f.is_ignored {
        None
    } else {
        match class_of(f.field_type) {
            Ok(_) => None,
            Err(e) => Some(e),
        }
    }
}

/// The first field, in order, that cannot be given a default, with the reason, if
/// there is one.
pub open spec fn first_refusal(fields: Seq<FieldInfo>) -> Option<Refusal>
    decreases fields.len(),
{
    if fields.len() == 0 {
        None
    } else {
        match first_refusal(fields.drop_last()) {
            Some(r) => Some(r),
            None => match field_error(fields.last()) {
                Some(e) => Some(Refusal { field: (fields.len() - 1) as usize, reason: e }),
                None => None,
            },
        }
    }
}

/// Whether every field is opted out or has a class, so that a builder can be written
/// for the record.
pub open spec fn admitted(fields: Seq<FieldInfo>) -> bool {
    forall|i: int|
        0 <= i < fields.len() ==> (#[trigger] fields[i]).is_ignored || class_of(
            fields[i].field_type,
        ) is Ok
}

/// A refusal among the first `k` fields is the refusal of the whole list.
pub proof fn lemma_refusal_stays(fields: Seq<FieldInfo>, k: int)
    requires
        0 <= k <= fields.len(),
        first_refusal(fields.take(k)) is Some,
    ensures
        first_refusal(fields) == first_refusal(fields.take(k)),
    decreases fields.len() - k,
{
    if k == fields.len() {
        assert(fields.take(k) =~= fields);
    } else {
        assert(fields.take(k + 1).drop_last() =~= fields.take(k));
        lemma_refusal_stays(fields, k + 1);
    }
}

/// No field is refused exactly when every field is opted out or has a class.
pub proof fn lemma_no_refusal_iff_admitted(fields: Seq<FieldInfo>)
    ensures
        first_refusal(fields) is None <==> admitted(fields),
    decreases fields.len(),
{
    if fields.len() > 0 {
        let front = fields.drop_last();
        lemma_no_refusal_iff_admitted(front);
        if admitted(fields) {
        }
        if first_refusal(fields) is None {
            assert forall|i: int| 0 <= i < fields.len() implies (#[trigger] fields[i]).is_ignored
                || class_of(fields[i].field_type) is Ok by {
                if i < front.len() {
                    assert(front[i] == fields[i]);
                }
            }
        }
    }
}

/// A refusal names a field of the list and gives that field's reason, and no field
/// before it is without a default.
pub proof fn lemma_refusal_is_earliest(fields: Seq<FieldInfo>)
    requires
        fields.len() <= usize::MAX,
        first_refusal(fields) is Some,
    ensures
        first_refusal(fields)->0.field < fields.len(),
        field_error(fields[first_refusal(fields)->0.field as int]) == Some(
            first_refusal(fields)->0.reason,
        ),
        forall|j: int|
            0 <= j < first_refusal(fields)->0.field ==> field_error(#[trigger] fields[j]) is None,
    decreases fields.len(),
{
    let front = fields.drop_last();
    if first_refusal(front) is Some {
        lemma_refusal_is_earliest(front);
        assert(forall|j: int| 0 <= j < front.len() ==> front[j] == fields[j]);
    } else {
        lemma_no_refusal_iff_admitted(front);
        assert forall|j: int| 0 <= j < fields.len() - 1 implies field_error(
            #[trigger] fields[j],
        ) is None by {
            assert(front[j] == fields[j]);
        }
    }
}

} // verus!
