//! The values a builder gives to fields, and the default value of each class.

use vstd::prelude::*;
use vstd::string::*;
use crate::decimal::{decimal, digit_char, render_decimal};
use crate::model::{NumericKind, TypeClass};

verus! {

/// The value of a field that the builder made.
///
/// A number is held with its kind, as the integer it equals; for the two floating kinds,
/// as the integer whose conversion to that kind is meant. A record stands for the
/// instance that the named type's own builder makes at the given index; an instance is
/// a record given field by field, as an override may give it.
#[derive(Debug, PartialEq, Eq)]
pub enum Value {
    Text(String),
    OsText(String),
    Char(char),
    Bool(bool),
    Number(NumericKind, i128),
    Sequence(Vec<Value>),
    Array(Vec<Value>),
    Record(String, usize),
    Instance(Vec<(String, Value)>),
}

/// The number of values of an integer kind narrower than 128 bits; `None` for the kinds
/// that hold every index unchanged.
pub open spec fn modulus_of(kind: NumericKind) -> Option<int> {
    match kind {
        NumericKind::I8 | NumericKind::U8 => Some(256int),
        NumericKind::I16 | NumericKind::U16 => Some(65536int),
        NumericKind::I32 | NumericKind::U32 => Some(4294967296int),
        NumericKind::I64 | NumericKind::U64 => Some(18446744073709551616int),
        NumericKind::Isize | NumericKind::Usize => Some(usize::MAX + 1),
        NumericKind::I128 | NumericKind::U128 | NumericKind::F32 | NumericKind::F64 => None,
    }
}

/// Whether a kind is a signed integer.
pub open spec fn is_signed(kind: NumericKind) -> bool {
    match kind {
        NumericKind::I8
        | NumericKind::I16
        | NumericKind::I32
        | NumericKind::I64
        | NumericKind::I128
        | NumericKind::Isize => true,
        _ => false,
    }
}

/// The index converted to a numeric kind. A kind too narrow for the index keeps its low
/// bits, read in two's complement when the kind is signed.
pub open spec fn converted(kind: NumericKind, i: usize) -> int {
    match modulus_of(kind) {
        None => i as int,
        Some(m) => {
            let low = (i as int) % m;
            if is_signed(kind) && low >= m / 2 {
                low - m
            } else {
                low
            }
        },
    }
}

/// The character that the index gives: its digit up to nine, the letter `a` beyond.
pub open spec fn index_char(i: usize) -> char {
    if i <= 9 {
        digit_char(i as nat)
    } else {
        'a'
    }
}

/// Whether `v` is the default value of a field named `name`, of class `class` and type
/// text `full`, at the index `i`.
pub open spec fn is_default(class: TypeClass, name: Seq<char>, full: Seq<char>, i: usize, v: Value) -> bool {
    match class {
        TypeClass::Text => v matches Value::Text(s) && s@ == name + decimal(i as nat),
        TypeClass::OsText => v matches Value::OsText(s) && s@ == name + decimal(i as nat),
        TypeClass::Char => v == Value::Char(index_char(i)),
        TypeClass::Bool => v == Value::Bool(false),
        TypeClass::Numeric(kind) => v == Value::Number(kind, converted(kind, i) as i128),
        TypeClass::DynamicSequence => v matches Value::Sequence(items) && items@.len() == 0,
        TypeClass::NumericArray(kind, n) => v matches Value::Array(items) && items@.len() == n
            && forall|j: int|
            0 <= j < n ==> #[trigger] items@[j] == Value::Number(kind, converted(kind, i) as i128),
        TypeClass::UserRecord => v matches Value::Record(path, at) && path@ == full && at == i,
    }
}

/// A converted index always fits the 128 bits a number is held in.
pub proof fn lemma_converted_fits(kind: NumericKind, i: usize)
    ensures
        i128::MIN <= converted(kind, i) <= i128::MAX,
        !is_signed(kind) ==> 0 <= converted(kind, i),
        modulus_of(kind) is Some ==> -modulus_of(kind)->0 / 2 <= converted(kind, i)
            < modulus_of(kind)->0,
        modulus_of(kind) is Some && is_signed(kind) ==> converted(kind, i) < modulus_of(kind)->0
            / 2,
{
}

/// A kind wide enough for the index holds it unchanged.
pub proof fn lemma_converted_small(kind: NumericKind, i: usize)
    requires
        modulus_of(kind) is Some ==> (if is_signed(kind) {
            i < modulus_of(kind)->0 / 2
        } else {
            i < modulus_of(kind)->0
        }),
    ensures
        converted(kind, i) == i,
{
    if modulus_of(kind) is Some {
        let m = modulus_of(kind)->0;
        assert((i as int) % m == i as int) by (nonlinear_arith)
            requires
                0 <= i as int,
                (i as int) < m,
        ;
    }
}

/// Converts the index to a numeric kind.
pub fn convert(kind: NumericKind, i: usize) -> (r: i128)
    ensures
        r == converted(kind, i),
{
    let wide: i128 = i as i128;
    let modulus: Option<i128> = match kind {
        NumericKind::I8 | NumericKind::U8 => Some(256),
        NumericKind::I16 | NumericKind::U16 => Some(65536),
        NumericKind::I32 | NumericKind::U32 => Some(4294967296),
        NumericKind::I64 | NumericKind::U64 => Some(18446744073709551616),
        NumericKind::Isize | NumericKind::Usize => Some(usize::MAX as i128 + 1),
        NumericKind::I128 | NumericKind::U128 | NumericKind::F32 | NumericKind::F64 => None,
    };
    let signed = match kind {
        NumericKind::I8
        | NumericKind::I16
        | NumericKind::I32
        | NumericKind::I64
        | NumericKind::I128
        | NumericKind::Isize => true,
        _ => false,
    };
    match modulus {
        None => wide,
        Some(m) => {
            let low: i128 = wide % m;
            if signed && low >= m / 2 {
                low - m
            } else {
                low
            }
        },
    }
}

/// Gives the character that belongs to an index.
pub fn char_of_index(i: usize) -> (r: char)
    ensures
        r == index_char(i),
{
    if i == 0 {
        '0'
    } else if i == 1 {
        '1'
    } else if i == 2 {
        '2'
    } else if i == 3 {
        '3'
    } else if i == 4 {
        '4'
    } else if i == 5 {
        '5'
    } else if i == 6 {
        '6'
    } else if i == 7 {
        '7'
    } else if i == 8 {
        '8'
    } else if i == 9 {
        '9'
    } else {
        'a'
    }
}

/// Writes a field's name followed by the index in decimal.
pub fn indexed_name(name: &str, i: usize) -> (r: String)
    ensures
        r@ == name@ + decimal(i as nat),
{
    let mut out = String::from_str(name);
    let digits = render_decimal(i);
    out.append(digits.as_str());
    out
}

/// Makes the default value of a field at an index: the named text for a text field, the
/// index's character, false, the converted index, an empty sequence, an array filled
/// with the converted index, or the stand-in for a record built at that index.
pub fn default_value(class: TypeClass, name: &str, full: &str, i: usize) -> (r: Value)
    ensures
        is_default(class, name@, full@, i, r),
{
    match class {
        TypeClass::Text => Value::Text(indexed_name(name, i)),
        TypeClass::OsText => Value::OsText(indexed_name(name, i)),
        TypeClass::Char => Value::Char(char_of_index(i)),
        TypeClass::Bool => Value::Bool(false),
        TypeClass::Numeric(kind) => Value::Number(kind, convert(kind, i)),
        TypeClass::DynamicSequence => Value::Sequence(Vec::new()),
        TypeClass::NumericArray(kind, n) => {
            let number = convert(kind, i);
            let mut items: Vec<Value> = Vec::new();
            let mut k: usize = 0;
            while k < n
                invariant
                    0 <= k <= n,
                    items@.len() == k,
                    number == converted(kind, i),
                    forall|j: int|
                        0 <= j < k ==> #[trigger] items@[j] == Value::Number(kind, number),
                decreases n - k,
            {
                items.push(Value::Number(kind, number));
                k = k + 1;
            }
            Value::Array(items)
        },
        TypeClass::UserRecord => Value::Record(String::from_str(full), i),
    }
}

} // verus!
