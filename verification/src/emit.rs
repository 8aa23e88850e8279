//! The builder emitter: from the described fields of a record to the source text of its
//! builder.

use vstd::prelude::*;
use vstd::string::*;
use crate::classify::{
    admitted, class_of_field_type, classify_field_type, field_type_of, first_refusal,
    lemma_no_refusal_iff_admitted, lemma_refusal_stays, parse_field_type,
};
use crate::decimal::{decimal, render_decimal};
use crate::extract::{count_ignored, extracted, get_fields};
use crate::model::{ClassifyError, FieldInfo, FieldType, ItemStruct, Refusal, TypeClass};

verus! {

/// The texts of a list of strings.
pub open spec fn texts(v: Seq<String>) -> Seq<Seq<char>> {
    Seq::new(v.len(), |i: int| v[i]@)
}

/// A list of texts written one after the other, each followed by `end`.
pub open spec fn terminated(items: Seq<Seq<char>>, end: Seq<char>) -> Seq<char>
    decreases items.len(),
{
    if items.len() == 0 {
        Seq::empty()
    } else {
        terminated(items.drop_last(), end) + items.last() + end
    }
}

/// An identifier as it enters a longer identifier: without the `r#` that marks it as
/// raw, if it has one.
pub open spec fn fragment_of(name: Seq<char>) -> Seq<char> {
    if name.len() >= 2 && name[0] == 'r' && name[1] == '#' {
        name.skip(2)
    } else {
        name
    }
}

/// The guard before each written item: present in test builds, and in all builds where
/// the feature that allows it is on.
pub open spec fn guard_text() -> Seq<char> {
    "#[cfg(any(test, feature = \"allow_outside_tests\"))]\n"@
}

/// The name of the builder written for the record `source`.
pub open spec fn builder_name_of(source: Seq<char>) -> Seq<char> {
    "Tlayuda"@ + fragment_of(source) + "Builder"@
}

/// The name of the builder's storage slot for the field `name`.
pub open spec fn slot_name_of(name: Seq<char>) -> Seq<char> {
    "inner_"@ + fragment_of(name)
}

/// The default generator of a field: a closure from the index to the field's value.
/// `name` is the field's name and `full` the text of its type (of the element type for
/// an array).
pub open spec fn generator_text(class: TypeClass, name: Seq<char>, full: Seq<char>) -> Seq<char> {
    match class {
        TypeClass::Text | TypeClass::OsText => "|i| format!(\"{}{}\", stringify!("@ + name
            + "), i).into()"@,
        TypeClass::Char => "|i| if i < 10 { std::char::from_digit(i as u32, 10).unwrap_or('a') } else { 'a' }"@,
        TypeClass::Bool => "|i| false"@,
        TypeClass::Numeric(_) => "|i| i as "@ + full,
        TypeClass::DynamicSequence => "|i| Vec::new()"@,
        TypeClass::NumericArray(_, n) => "|i| [i as "@ + full + "; "@ + decimal(n as nat)
            + "usize]"@,
        TypeClass::UserRecord => "|i| "@ + full + "::tlayuda().with_index(i).build()"@,
    }
}

/// The full text carried by a form that was read.
pub open spec fn full_text_of(ft: FieldType) -> Seq<char> {
    match ft {
        FieldType::Basic(_, full) => full@,
        FieldType::Array(_, full, _) => full@,
    }
}

/// The default generator for the field `name` of type `t`, or the reason there is none.
pub open spec fn generator_of(name: Seq<char>, t: &crate::model::TypeExpr) -> Result<
    Seq<char>,
    ClassifyError,
> {
    match field_type_of(t) {
        Err(e) => Err(e),
        Ok(ft) => match class_of_field_type(ft) {
            Err(e) => Err(e),
            Ok(class) => Ok(generator_text(class, name, full_text_of(ft))),
        },
    }
}

/// The line that fills a field's slot when the builder is made: the caller's value for
/// an opted-out field, the boxed default generator for any other.
pub open spec fn initializer_of(f: FieldInfo) -> Result<Seq<char>, ClassifyError> {
    if f.is_ignored {
        Ok(slot_name_of(f.identifier@) + ": "@ + f.identifier@)
    } else {
        match generator_of(f.identifier@, f.field_type) {
            Err(e) => Err(e),
            Ok(g) => Ok(slot_name_of(f.identifier@) + ": Box::new("@ + g + ")"@),
        }
    }
}

/// The initialiser lines of all fields, in order; meaningful when none fails.
pub open spec fn initializers_of(fields: Seq<FieldInfo>) -> Seq<Seq<char>> {
    Seq::new(fields.len(), |i: int| initializer_of(fields[i])->Ok_0)
}

/// The pieces of text that the builder holds once per field of some group.
#[derive(Clone, Copy, Debug, PartialEq, Eq, Structural)]
pub enum Part {
    /// The slot's declaration in the builder; every field has one.
    Declaration,
    /// The override operation; fields that are not opted out have one.
    Setter,
    /// A parameter of the initialiser and of the entry point; opted-out fields have one.
    Parameter,
    /// The argument that the entry point hands on; opted-out fields have one.
    Argument,
    /// The assignment that clones the caller's value; opted-out fields have one.
    Kept,
    /// The assignment that runs the generator; fields that are not opted out have one.
    Made,
}

/// Whether the field `f` has a piece of kind `part`.
pub open spec fn has_part(part: Part, f: FieldInfo) -> bool {
    match part {
        Part::Declaration => true,
        Part::Setter | Part::Made => !f.is_ignored,
        Part::Parameter | Part::Argument | Part::Kept => f.is_ignored,
    }
}

/// The piece of kind `part` for the field `f`.
pub open spec fn part_text(part: Part, f: FieldInfo) -> Seq<char> {
    let name = f.identifier@;
    let ty = f.field_type.text@;
    match part {
        Part::Declaration => if f.is_ignored {
            slot_name_of(name) + ": "@ + ty
        } else {
            slot_name_of(name) + ": Box<dyn FnMut(usize) -> "@ + ty + ">"@
        },
        Part::Setter => "pub fn set_"@ + fragment_of(name)
            + "<F: 'static>(mut self, f: F) -> Self where F: Fn(usize) -> "@ + ty + " { self."@
            + slot_name_of(name) + " = Box::new(f); self }"@,
        Part::Parameter => name + ": "@ + ty,
        Part::Argument => name,
        Part::Kept => name + ": self."@ + slot_name_of(name) + ".clone(),"@,
        Part::Made => name + ": self."@ + slot_name_of(name) + ".as_mut()(i),"@,
    }
}

/// The pieces of kind `part` of the fields that have one, in the fields' order.
pub open spec fn parts_of(part: Part, fields: Seq<FieldInfo>) -> Seq<Seq<char>>
    decreases fields.len(),
{
    if fields.len() == 0 {
        Seq::empty()
    } else if has_part(part, fields.last()) {
        parts_of(part, fields.drop_last()).push(part_text(part, fields.last()))
    } else {
        parts_of(part, fields.drop_last())
    }
}

/// The pieces of a list of fields are those of its front followed by those of its back:
/// pieces come in the order of their fields.
pub proof fn lemma_parts_keep_order(part: Part, front: Seq<FieldInfo>, back: Seq<FieldInfo>)
    ensures
        parts_of(part, front + back) == parts_of(part, front) + parts_of(part, back),
    decreases back.len(),
{
    if back.len() == 0 {
    } else {
        let all = front + back;
        assert(all.drop_last() =~= front + back.drop_last());
        lemma_parts_keep_order(part, front, back.drop_last());
        if has_part(part, back.last()) {
        }
    }
}

/// The builder has one slot and one initialiser line per field, one override per field
/// that is not opted out, and one parameter, one argument and one cloning assignment per
/// opted-out field; every field is assigned exactly once in a build.
pub proof fn lemma_part_counts(fields: Seq<FieldInfo>)
    ensures
        count_ignored(fields) <= fields.len(),
        parts_of(Part::Declaration, fields).len() == fields.len(),
        initializers_of(fields).len() == fields.len(),
        parts_of(Part::Setter, fields).len() == fields.len() - count_ignored(fields),
        parts_of(Part::Made, fields).len() == fields.len() - count_ignored(fields),
        parts_of(Part::Parameter, fields).len() == count_ignored(fields),
        parts_of(Part::Argument, fields).len() == count_ignored(fields),
        parts_of(Part::Kept, fields).len() == count_ignored(fields),
    decreases fields.len(),
{
    if fields.len() > 0 {
        lemma_part_counts(fields.drop_last());
    }
}

/// The declaration of the builder record: the index and one slot per field.
pub open spec fn struct_text(source: Seq<char>, fields: Seq<FieldInfo>) -> Seq<char> {
    "pub struct "@ + builder_name_of(source) + " { index: usize, "@ + terminated(
        parts_of(Part::Declaration, fields),
        ", "@,
    ) + "}\n"@
}

/// The builder's operations: initialiser, overrides, index control, single and bulk
/// build.
pub open spec fn impl_text(source: Seq<char>, fields: Seq<FieldInfo>) -> Seq<char> {
    "impl "@ + builder_name_of(source) + " { pub fn new("@ + terminated(
        parts_of(Part::Parameter, fields),
        ", "@,
    ) + ") -> "@ + builder_name_of(source) + " { "@ + builder_name_of(source) + " { index: 0, "@
        + terminated(initializers_of(fields), ", "@) + "} } "@ + terminated(
        parts_of(Part::Setter, fields),
        " "@,
    )
        + "pub fn with_index(mut self, index: usize) -> Self { self.index = index; self } fn take_index(&mut self) -> usize { self.index = self.index + 1; self.index - 1 } pub fn build(&mut self) -> "@
        + source + " { let i = self.take_index(); "@ + source + " { "@ + terminated(
        parts_of(Part::Kept, fields),
        " "@,
    ) + terminated(parts_of(Part::Made, fields), " "@)
        + "} } pub fn build_vec(&mut self, count: usize) -> Vec::<"@ + source
        + "> { std::iter::repeat_with(|| self.build()).take(count).collect() } }\n"@
}

/// The entry point installed on the record itself.
pub open spec fn entry_text(source: Seq<char>, fields: Seq<FieldInfo>) -> Seq<char> {
    "impl "@ + source + " { pub fn tlayuda("@ + terminated(
        parts_of(Part::Parameter, fields),
        ", "@,
    ) + ") -> "@ + builder_name_of(source) + " { "@ + builder_name_of(source) + "::new("@
        + terminated(parts_of(Part::Argument, fields), ", "@) + ") } }\n"@
}

/// Everything written for a record: the builder, its operations and the entry point,
/// each behind the guard and on a line of its own.
pub open spec fn output_text(source: Seq<char>, fields: Seq<FieldInfo>) -> Seq<char> {
    guard_text() + struct_text(source, fields) + guard_text() + impl_text(source, fields)
        + guard_text() + entry_text(source, fields)
}

/// What is wrong with a type, in words.
pub open spec fn reason_text(reason: ClassifyError) -> Seq<char> {
    match reason {
        ClassifyError::UnsupportedShape => "types of this form are not supported"@,
        ClassifyError::UnsupportedElement => "arrays of this element type are not supported"@,
        ClassifyError::UnsupportedLength => "an array length must be an integer literal"@,
        ClassifyError::InvalidLength => "the number literal of the array length is invalid"@,
    }
}

/// The diagnostic for a refused field: the field's name, its type as written, and what
/// is wrong with the type.
pub open spec fn diagnostic_text(f: FieldInfo, reason: ClassifyError) -> Seq<char> {
    "Tlayuda cannot build the field `"@ + f.identifier@ + "` of type `"@ + f.field_type.text@
        + "`: "@ + reason_text(reason)
}

/// Writes the diagnostic for a refused field.
pub fn diagnostic<'a>(f: &FieldInfo<'a>, reason: ClassifyError) -> (r: String)
    ensures
        r@ == diagnostic_text(*f, reason),
{
    let mut out = String::from_str("Tlayuda cannot build the field `");
    out.append(f.identifier.as_str());
    out.append("` of type `");
    out.append(f.field_type.text.as_str());
    out.append("`: ");
    out.append(
        match reason {
            ClassifyError::UnsupportedShape => "types of this form are not supported",
            ClassifyError::UnsupportedElement => "arrays of this element type are not supported",
            ClassifyError::UnsupportedLength => "an array length must be an integer literal",
            ClassifyError::InvalidLength => "the number literal of the array length is invalid",
        },
    );
    out
}

/// The per-field pieces that the builder's text is assembled from.
#[derive(Debug)]
pub struct OutputTokenPartials {
    pub field_setter_functions: Vec<String>,
    pub field_builder_intializers: Vec<String>,
    pub field_declarations: Vec<String>,
}

/// Writes the items of a list one after the other, each followed by `end`.
pub fn join_terminated(items: &Vec<String>, end: &str) -> (r: String)
    ensures
        r@ == terminated(texts(items@), end@),
{
    let mut out = String::new();
    let mut i: usize = 0;
    while i < items.len()
        invariant
            0 <= i <= items.len(),
            out@ == terminated(texts(items@.take(i as int)), end@),
        decreases items.len() - i,
    {
        proof {
            let next = texts(items@.take(i + 1));
            assert(next.drop_last() =~= texts(items@.take(i as int)));
        }
        out.append(items[i].as_str());
        out.append(end);
        i = i + 1;
    }
    assert(items@.take(i as int) =~= items@);
    out
}

/// Gives an identifier as it enters a longer one: without its raw marker.
pub fn fragment<'a>(name: &'a str) -> (r: &'a str)
    ensures
        r@ == fragment_of(name@),
{
    let n = name.unicode_len();
    if n >= 2 && name.get_char(0) == 'r' && name.get_char(1) == '#' {
        let rest = name.substring_char(2, n);
        rest
    } else {
        name
    }
}

/// Writes the name of the builder for the record `source`.
pub fn builder_name(source: &str) -> (r: String)
    ensures
        r@ == builder_name_of(source@),
{
    let mut out = String::from_str("Tlayuda");
    out.append(fragment(source));
    out.append("Builder");
    out
}

/// Writes the name of the storage slot for the field `name`.
pub fn slot_name(name: &str) -> (r: String)
    ensures
        r@ == slot_name_of(name@),
{
    let mut out = String::from_str("inner_");
    out.append(fragment(name));
    out
}

/// Writes the default generator that belongs to a class.
pub fn default_generator(class: TypeClass, name: &str, full: &str) -> (r: String)
    ensures
        r@ == generator_text(class, name@, full@),
{
    match class {
        TypeClass::Text | TypeClass::OsText => {
            let mut out = String::from_str("|i| format!(\"{}{}\", stringify!(");
            out.append(name);
            out.append("), i).into()");
            out
        },
        TypeClass::Char => String::from_str(
            "|i| if i < 10 { std::char::from_digit(i as u32, 10).unwrap_or('a') } else { 'a' }",
        ),
        TypeClass::Bool => String::from_str("|i| false"),
        TypeClass::Numeric(_) => {
            let mut out = String::from_str("|i| i as ");
            out.append(full);
            out
        },
        TypeClass::DynamicSequence => String::from_str("|i| Vec::new()"),
        TypeClass::NumericArray(_, n) => {
            let mut out = String::from_str("|i| [i as ");
            out.append(full);
            out.append("; ");
            let length = render_decimal(n);
            out.append(length.as_str());
            out.append("usize]");
            out
        },
        TypeClass::UserRecord => {
            let mut out = String::from_str("|i| ");
            out.append(full);
            out.append("::tlayuda().with_index(i).build()");
            out
        },
    }
}

/// Writes the line that fills a field's slot, or says why the field has no default.
pub fn field_initializer<'a>(f: &FieldInfo<'a>) -> (r: Result<String, ClassifyError>)
    ensures
        r is Ok <==> initializer_of(*f) is Ok,
        r is Ok ==> r->Ok_0@ == initializer_of(*f)->Ok_0,
        r is Err ==> r->Err_0 == initializer_of(*f)->Err_0,
{
    let mut out = slot_name(f.identifier.as_str());
    if f.is_ignored {
        out.append(": ");
        out.append(f.identifier.as_str());
        Ok(out)
    } else {
        match parse_field_type(f.field_type) {
            Err(e) => Err(e),
            Ok(ft) => match classify_field_type(&ft) {
                Err(e) => Err(e),
                Ok(class) => {
                    let full: &String = match ft {
                        FieldType::Basic(_, full) => full,
                        FieldType::Array(_, full, _) => full,
                    };
                    let g = default_generator(class, f.identifier.as_str(), full.as_str());
                    out.append(": Box::new(");
                    out.append(g.as_str());
                    out.append(")");
                    Ok(out)
                },
            },
        }
    }
}

/// Tells whether a field has a piece of the given kind.
pub fn takes_part<'a>(part: Part, f: &FieldInfo<'a>) -> (r: bool)
    ensures
        r == has_part(part, *f),
{
    match part {
        Part::Declaration => true,
        Part::Setter | Part::Made => !f.is_ignored,
        Part::Parameter | Part::Argument | Part::Kept => f.is_ignored,
    }
}

/// Writes the piece of the given kind for a field.
pub fn write_part<'a>(part: Part, f: &FieldInfo<'a>) -> (r: String)
    ensures
        r@ == part_text(part, *f),
{
    let name = f.identifier.as_str();
    let ty = f.field_type.text.as_str();
    match part {
        Part::Declaration => {
            let mut out = slot_name(name);
            if f.is_ignored {
                out.append(": ");
                out.append(ty);
            } else {
                out.append(": Box<dyn FnMut(usize) -> ");
                out.append(ty);
                out.append(">");
            }
            out
        },
        Part::Setter => {
            let slot = slot_name(name);
            let mut out = String::from_str("pub fn set_");
            out.append(fragment(name));
            out.append("<F: 'static>(mut self, f: F) -> Self where F: Fn(usize) -> ");
            out.append(ty);
            out.append(" { self.");
            out.append(slot.as_str());
            out.append(" = Box::new(f); self }");
            out
        },
        Part::Parameter => {
            let mut out = String::from_str(name);
            out.append(": ");
            out.append(ty);
            out
        },
        Part::Argument => String::from_str(name),
        Part::Kept => {
            let slot = slot_name(name);
            let mut out = String::from_str(name);
            out.append(": self.");
            out.append(slot.as_str());
            out.append(".clone(),");
            out
        },
        Part::Made => {
            let slot = slot_name(name);
            let mut out = String::from_str(name);
            out.append(": self.");
            out.append(slot.as_str());
            out.append(".as_mut()(i),");
            out
        },
    }
}

/// Writes the pieces of one kind for the fields that have one, in the fields' order.
pub fn collect_parts<'a>(part: Part, fields: &Vec<FieldInfo<'a>>) -> (r: Vec<String>)
    ensures
        texts(r@) == parts_of(part, fields@),
{
    let mut out: Vec<String> = Vec::new();
    let mut i: usize = 0;
    while i < fields.len()
        invariant
            0 <= i <= fields.len(),
            texts(out@) == parts_of(part, fields@.take(i as int)),
        decreases fields.len() - i,
    {
        proof {
            let next = fields@.take(i + 1);
            assert(next.drop_last() =~= fields@.take(i as int));
        }
        if takes_part(part, &fields[i]) {
            let piece = write_part(part, &fields[i]);
            out.push(piece);
        }
        i = i + 1;
    }
    assert(fields@.take(i as int) =~= fields@);
    out
}

/// Writes the per-field pieces of the builder: an override for each field that is not
/// opted out, and an initialiser line and a slot declaration for every field.
///
/// Fails at the first field, in order, that is not opted out and whose type has no
/// default, with that field's position and reason; succeeds when there is no such field.
pub fn generate_output_tokens<'a>(fields: &Vec<FieldInfo<'a>>) -> (r: Result<
    OutputTokenPartials,
    Refusal,
>)
    ensures
        r is Ok <==> admitted(fields@),
        r is Err ==> first_refusal(fields@) == Some(r->Err_0),
        r is Ok ==> {
            &&& texts(r->Ok_0.field_setter_functions@) == parts_of(Part::Setter, fields@)
            &&& texts(r->Ok_0.field_builder_intializers@) == initializers_of(fields@)
            &&& texts(r->Ok_0.field_declarations@) == parts_of(Part::Declaration, fields@)
        },
{
    proof {
        lemma_no_refusal_iff_admitted(fields@);
    }
    let field_setter_functions = collect_parts(Part::Setter, fields);
    let mut field_builder_intializers: Vec<String> = Vec::new();
    let mut i: usize = 0;
    while i < fields.len()
        invariant
            0 <= i <= fields.len(),
            first_refusal(fields@.take(i as int)) is None,
            field_builder_intializers@.len() == i,
            forall|j: int|
                0 <= j < i ==> (#[trigger] field_builder_intializers@[j])@ == initializer_of(
                    fields@[j],
                )->Ok_0,
        decreases fields.len() - i,
    {
        proof {
            let next = fields@.take(i + 1);
            assert(next.drop_last() =~= fields@.take(i as int));
        }
        match field_initializer(&fields[i]) {
            Err(e) => {
                proof {
                    lemma_refusal_stays(fields@, i + 1);
                }
                return Err(Refusal { field: i, reason: e });
            },
            Ok(line) => {
                field_builder_intializers.push(line);
            },
        }
        i = i + 1;
    }
    assert(fields@.take(i as int) =~= fields@);
    let field_declarations = collect_parts(Part::Declaration, fields);
    Ok(OutputTokenPartials { field_setter_functions, field_builder_intializers, field_declarations })
}

fn write_struct(name: &String, declarations: &Vec<String>) -> (r: String)
    ensures
        r@ == "pub struct "@ + name@ + " { index: usize, "@ + terminated(
            texts(declarations@),
            ", "@,
        ) + "}\n"@,
{
    let list = join_terminated(declarations, ", ");
    let mut out = String::from_str("pub struct ");
    out.append(name.as_str());
    out.append(" { index: usize, ");
    out.append(list.as_str());
    out.append("}\n");
    out
}

fn write_impl(
    source: &String,
    name: &String,
    parameters: &Vec<String>,
    initializers: &Vec<String>,
    setters: &Vec<String>,
    kept: &Vec<String>,
    made: &Vec<String>,
) -> (r: String)
    ensures
        r@ == "impl "@ + name@ + " { pub fn new("@ + terminated(texts(parameters@), ", "@)
            + ") -> "@ + name@ + " { "@ + name@ + " { index: 0, "@ + terminated(
            texts(initializers@),
            ", "@,
        ) + "} } "@ + terminated(texts(setters@), " "@)
            + "pub fn with_index(mut self, index: usize) -> Self { self.index = index; self } fn take_index(&mut self) -> usize { self.index = self.index + 1; self.index - 1 } pub fn build(&mut self) -> "@
            + source@ + " { let i = self.take_index(); "@ + source@ + " { "@ + terminated(
            texts(kept@),
            " "@,
        ) + terminated(texts(made@), " "@)
            + "} } pub fn build_vec(&mut self, count: usize) -> Vec::<"@ + source@
            + "> { std::iter::repeat_with(|| self.build()).take(count).collect() } }\n"@,
{
    let parameter_list = join_terminated(parameters, ", ");
    let initializer_list = join_terminated(initializers, ", ");
    let setter_list = join_terminated(setters, " ");
    let kept_list = join_terminated(kept, " ");
    let made_list = join_terminated(made, " ");
    let mut out = String::from_str("impl ");
    out.append(name.as_str());
    out.append(" { pub fn new(");
    out.append(parameter_list.as_str());
    out.append(") -> ");
    out.append(name.as_str());
    out.append(" { ");
    out.append(name.as_str());
    out.append(" { index: 0, ");
    out.append(initializer_list.as_str());
    out.append("} } ");
    out.append(setter_list.as_str());
    out.append(
        "pub fn with_index(mut self, index: usize) -> Self { self.index = index; self } fn take_index(&mut self) -> usize { self.index = self.index + 1; self.index - 1 } pub fn build(&mut self) -> ",
    );
    out.append(source.as_str());
    out.append(" { let i = self.take_index(); ");
    out.append(source.as_str());
    out.append(" { ");
    out.append(kept_list.as_str());
    out.append(made_list.as_str());
    out.append("} } pub fn build_vec(&mut self, count: usize) -> Vec::<");
    out.append(source.as_str());
    out.append("> { std::iter::repeat_with(|| self.build()).take(count).collect() } }\n");
    out
}

fn write_entry(source: &String, name: &String, parameters: &Vec<String>, arguments: &Vec<String>) -> (r:
    String)
    ensures
        r@ == "impl "@ + source@ + " { pub fn tlayuda("@ + terminated(texts(parameters@), ", "@)
            + ") -> "@ + name@ + " { "@ + name@ + "::new("@ + terminated(
            texts(arguments@),
            ", "@,
        ) + ") } }\n"@,
{
    let parameter_list = join_terminated(parameters, ", ");
    let argument_list = join_terminated(arguments, ", ");
    let mut out = String::from_str("impl ");
    out.append(source.as_str());
    out.append(" { pub fn tlayuda(");
    out.append(parameter_list.as_str());
    out.append(") -> ");
    out.append(name.as_str());
    out.append(" { ");
    out.append(name.as_str());
    out.append("::new(");
    out.append(argument_list.as_str());
    out.append(") } }\n");
    out
}

/// Writes the builder for a record: the builder's declaration, its operations and the
/// entry point on the record, as source text, each item guarded so that it exists in
/// test builds and wherever the feature `allow_outside_tests` is on.
///
/// Succeeds exactly when every named field is opted out or has a class; otherwise names
/// the first named field, in declaration order, that has none, and gives the reason.
pub fn entry_point(input: &ItemStruct) -> (r: Result<String, Refusal>)
    ensures
        r is Ok <==> admitted(extracted(input.fields@)),
        r is Err ==> first_refusal(extracted(input.fields@)) == Some(r->Err_0),
        r is Ok ==> r->Ok_0@ == output_text(input.ident@, extracted(input.fields@)),
{
    let fields = get_fields(input);
    let inner_builder_name = builder_name(input.ident.as_str());
    match generate_output_tokens(&fields) {
        Err(e) => Err(e),
        Ok(partials) => {
            let builder_parameters = collect_parts(Part::Parameter, &fields);
            let arguments = collect_parts(Part::Argument, &fields);
            let ignored_fields = collect_parts(Part::Kept, &fields);
            let made_fields = collect_parts(Part::Made, &fields);
            let declaration = write_struct(&inner_builder_name, &partials.field_declarations);
            let operations = write_impl(
                &input.ident,
                &inner_builder_name,
                &builder_parameters,
                &partials.field_builder_intializers,
                &partials.field_setter_functions,
                &ignored_fields,
                &made_fields,
            );
            let entry = write_entry(
                &input.ident,
                &inner_builder_name,
                &builder_parameters,
                &arguments,
            );
            let mut out = String::from_str("#[cfg(any(test, feature = \"allow_outside_tests\"))]\n");
            out.append(declaration.as_str());
            out.append("#[cfg(any(test, feature = \"allow_outside_tests\"))]\n");
            out.append(operations.as_str());
            out.append("#[cfg(any(test, feature = \"allow_outside_tests\"))]\n");
            out.append(entry.as_str());
            Ok(out)
        },
    }
}

} // verus!
