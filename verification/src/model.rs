//! What the engine reads of a record's declaration, held as plain values.

use vstd::prelude::*;

verus! {

/// The numeric primitives, one per recognised type name.
#[derive(Clone, Copy, Debug, PartialEq, Eq, Structural)]
pub enum NumericKind {
    I8,
    I16,
    I32,
    I64,
    I128,
    Isize,
    U8,
    U16,
    U32,
    U64,
    U128,
    Usize,
    F32,
    F64,
}

/// The length written in an array type.
#[derive(Debug)]
pub enum ArrayLength {
    /// An integer literal, given by its base-ten digits (separators and suffix removed).
    Integer(String),
    /// A literal of another kind.
    OtherLiteral,
    /// Any expression that is not a literal.
    Expression,
}

/// The form of a type expression.
#[derive(Debug)]
pub enum TypeShape {
    /// A path, given by the identifiers of its segments, first to last, and by whether
    /// its final segment carries arguments, as `Vec<u8>` does and `Vec` does not.
    Path { segments: Vec<String>, instantiated: bool },
    /// An array: element type and length.
    Array(Box<TypeExpr>, ArrayLength),
    /// Every other form: tuples, references, function types and so on.
    Other,
}

/// A type as it was written: its source text and its form.
#[derive(Debug)]
pub struct TypeExpr {
    pub text: String,
    pub shape: TypeShape,
}

/// An attribute placed on a field.
#[derive(Debug)]
pub enum Attribute {
    /// A bare path without a leading separator, given by its segments' identifiers.
    Path(Vec<String>),
    /// A list, a name-value pair, a path with a leading separator or with arguments,
    /// or anything that does not read as a meta item.
    Other,
}

/// One field of the record as declared. Positional fields have no name.
#[derive(Debug)]
pub struct FieldSource {
    pub name: Option<String>,
    pub ty: TypeExpr,
    pub attrs: Vec<Attribute>,
}

/// The record handed to the engine.
#[derive(Debug)]
pub struct ItemStruct {
    pub ident: String,
    pub fields: Vec<FieldSource>,
}

/// A named field as the engine describes it.
#[derive(Debug)]
pub struct FieldInfo<'a> {
    pub identifier: &'a String,
    pub field_type: &'a TypeExpr,
    pub is_ignored: bool,
}

/// The two forms of type the engine can read: a path with its classification key and
/// full text, or an array of such an element with its length.
#[derive(Debug)]
pub enum FieldType<'a> {
    Basic(&'a String, &'a String),
    Array(&'a String, &'a String, usize),
}

/// The category that decides a field's default value.
#[derive(Clone, Copy, Debug, PartialEq, Eq, Structural)]
pub enum TypeClass {
    Text,
    OsText,
    Char,
    Bool,
    Numeric(NumericKind),
    DynamicSequence,
    NumericArray(NumericKind, usize),
    UserRecord,
}

/// Why a type cannot be given a default value.
#[derive(Clone, Copy, Debug, PartialEq, Eq, Structural)]
pub enum ClassifyError {
    /// The type is neither a path nor an array.
    UnsupportedShape,
    /// The element of an array is itself an array, or not a numeric primitive.
    UnsupportedElement,
    /// The length of an array is not an integer literal.
    UnsupportedLength,
    /// The length of an array is an integer literal that is no machine-sized number.
    InvalidLength,
}

/// A record refused: the position, among its named fields, of the first field without
/// a default, and why it has none.
#[derive(Clone, Copy, Debug, PartialEq, Eq, Structural)]
pub struct Refusal {
    pub field: usize,
    pub reason: ClassifyError,
}

} // verus!
